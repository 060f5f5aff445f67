//! Decisions of the `embedded-nal-async` facade.
use vstd::prelude::*;

use crate::proto::SockState;

verus! {

/// The states in which the peer has closed the connection (or we have).
pub open spec fn closed_state(state: SockState) -> bool {
    state == SockState::Closed || state == SockState::CloseWait || state == SockState::Closing
        || state == SockState::LastAck || state == SockState::TimeWait
}

/// `true` if `state` indicates the peer has closed (or we have). A read
/// that finds no data reports end of stream in these states and waits in
/// the others.
pub fn is_closed(state: SockState) -> (r: bool)
    ensures
        r == closed_state(state),
{
    match state {
        SockState::Closed | SockState::CloseWait | SockState::Closing | SockState::LastAck
        | SockState::TimeWait => true,
        _ => false,
    }
}

/// What a read does next.
#[derive(Debug, Clone, Copy, PartialEq, Eq, Structural)]
pub enum ReadStep {
    /// Return these bytes.
    Data(usize),
    /// No bytes came: ask the chip for the socket's state.
    CheckState,
    /// The connection is closed: return end of stream (`0`).
    Eof,
    /// Still open but no data yet: wait and receive again.
    Wait,
}

/// The decision of a read: bytes received are returned at once; when none
/// came, the socket's state (once asked for) tells end of stream from
/// "wait and retry".
pub fn read_step(n: usize, state: Option<SockState>) -> (r: ReadStep)
    ensures
        r == (if n > 0 {
            ReadStep::Data(n)
        } else {
            match state {
                None => ReadStep::CheckState,
                Some(s) => if closed_state(s) {
                    ReadStep::Eof
                } else {
                    ReadStep::Wait
                },
            }
        }),
{
    if n > 0 {
        ReadStep::Data(n)
    } else {
        match state {
            None => ReadStep::CheckState,
            Some(s) => if is_closed(s) {
                ReadStep::Eof
            } else {
                ReadStep::Wait
            },
        }
    }
}

} // verus!
