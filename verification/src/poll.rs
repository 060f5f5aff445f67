//! The decisions of the multi-step operations: how often to retry, when to
//! give up, how to split a payload, and which replies end a wait.
//!
//! The caller performs each bus exchange and each delay; the types here say
//! what to do next.
use vstd::prelude::*;

use crate::error::Error;
use crate::proto::WlStatus;

verus! {

/// Attempts of the one-shot connect (`connect_wpa` + status wait).
pub const CONNECT_ATTEMPTS: u32 = 5;
/// How long (ms) each connect attempt waits for association.
pub const CONNECT_WAIT_MS: u64 = 20_000;
/// Delay (ms) after a failed connect attempt.
pub const CONNECT_SETTLE_MS: u64 = 2_000;
/// Delay (ms) between two status polls while waiting for association.
pub const STATUS_POLL_MS: u64 = 250;
/// Disconnects issued after reset to flush retained Wi-Fi state.
pub const INIT_DISCONNECTS: u32 = 3;
/// Delay (ms) after each of those disconnects.
pub const INIT_DISCONNECT_MS: u64 = 300;
/// Polls of a queued DNS lookup before giving up.
pub const DNS_POLLS: u32 = 40;
/// Delay (ms) before each DNS poll.
pub const DNS_POLL_MS: u64 = 100;
/// State polls while a TCP connection is being established.
pub const ESTABLISH_POLLS: u32 = 40;
/// State polls while a TLS connection opened by hostname is being
/// established.
pub const ESTABLISH_POLLS_HOSTNAME: u32 = 80;
/// Delay (ms) after each of those state polls.
pub const ESTABLISH_POLL_MS: u64 = 250;
/// Largest payload sent in one `SEND_DATA_TCP` command.
pub const SEND_CHUNK: usize = 64;
/// Sends of one chunk before the chip's refusal is final.
pub const SEND_TRIES: u32 = 5;
/// Polls of `DATA_SENT_TCP` before giving up.
pub const DATA_SENT_POLLS: u32 = 20;
/// Delay (ms) after each of those polls.
pub const DATA_SENT_POLL_MS: u64 = 50;
/// Delay (ms) before polling a socket again when no data is available.
pub const READ_RETRY_MS: u64 = 50;
/// Delay (ms) after closing a socket, for the chip's teardown.
pub const CLOSE_SETTLE_MS: u64 = 100;
/// Delay (ms) between addressing a UDP packet and writing its payload.
pub const UDP_BEGIN_SETTLE_MS: u64 = 20;
/// Delay (ms) between writing a UDP payload and committing it.
pub const UDP_END_SETTLE_MS: u64 = 10;

/// What a bounded polling loop does after an attempt.
#[derive(Debug, Clone, Copy, PartialEq, Eq, Structural)]
pub enum PollStep {
    /// The awaited condition holds: stop with success.
    Ready,
    /// Try again.
    Again,
    /// The last allowed attempt failed: stop with failure.
    Exhausted,
}

/// A polling loop allowed a fixed number of attempts.
pub struct Poll {
    done: u32,
    limit: u32,
}

impl Poll {
    /// Attempts made so far.
    pub closed spec fn attempts(&self) -> nat {
        self.done as nat
    }

    /// Attempts allowed.
    pub closed spec fn limit(&self) -> nat {
        self.limit as nat
    }

    /// A loop allowed `limit` attempts, none made yet.
    pub fn new(limit: u32) -> (p: Poll)
        ensures
            p.attempts() == 0,
            p.limit() == limit,
    {
        Poll { done: 0, limit }
    }

    /// Record one attempt, whose outcome was `ready`.
    pub fn record(&mut self, ready: bool) -> (s: PollStep)
        requires
            old(self).attempts() < old(self).limit(),
        ensures
            final(self).attempts() == old(self).attempts() + 1,
            final(self).limit() == old(self).limit(),
            s == (if ready {
                PollStep::Ready
            } else if final(self).attempts() < final(self).limit() {
                PollStep::Again
            } else {
                PollStep::Exhausted
            }),
    {
        self.done = self.done + 1;
        if ready {
            PollStep::Ready
        } else if self.done < self.limit {
            PollStep::Again
        } else {
            PollStep::Exhausted
        }
    }
}

/// A deadline on a clock counting ticks.
pub struct Deadline {
    at: u64,
}

impl Deadline {
    /// The tick at which the deadline passes.
    pub closed spec fn at(&self) -> nat {
        self.at as nat
    }

    /// The deadline `timeout` ticks after `now`. The sum must fit the clock.
    pub fn after(now: u64, timeout: u64) -> (d: Deadline)
        requires
            now + timeout <= u64::MAX,
        ensures
            d.at() == now + timeout,
    {
        Deadline { at: now + timeout }
    }

    /// Whether time remains at tick `now`.
    pub fn before(&self, now: u64) -> (r: bool)
        ensures
            r == (now < self.at()),
    {
        now < self.at
    }
}

/// A status reply ends the wait for association when it is `Connected`;
/// any other status or any error keeps waiting.
pub fn is_connected<E>(status: &Result<WlStatus, Error<E>>) -> (r: bool)
    ensures
        r == (*status == Ok::<WlStatus, Error<E>>(WlStatus::Connected)),
{
    match status {
        Ok(WlStatus::Connected) => true,
        _ => false,
    }
}

/// The meaning of one poll of a queued DNS lookup. The reply is the
/// payload of `GET_HOST_BY_NAME`, read into a 4-byte buffer.
pub open spec fn dns_outcome<E>(reply: Result<Seq<u8>, Error<E>>) -> Result<Option<Seq<u8>>, Error<E>> {
    match reply {
        Ok(p) => if p.len() == 4 && p != seq![0u8, 0u8, 0u8, 0u8] {
            Ok(Some(p))
        } else {
            Ok(None)
        },
        Err(Error::Framing) => Ok(None),
        Err(Error::Nina) => Ok(None),
        Err(e) => Err(e),
    }
}

/// Classify one poll of a queued DNS lookup: a 4-byte address other than
/// `0.0.0.0` is the answer; `0.0.0.0`, a shorter payload, a framing error
/// or a refusal mean "not resolved yet"; other errors end the lookup.
pub fn dns_answer<E>(reply: Result<Vec<u8>, Error<E>>) -> (r: Result<Option<[u8; 4]>, Error<E>>)
    ensures
        match (r, dns_outcome(match reply {
            Ok(p) => Ok(p@),
            Err(e) => Err(e),
        })) {
            (Ok(Some(ip)), Ok(Some(p))) => ip@ == p,
            (Ok(None), Ok(None)) => true,
            (Err(a), Err(b)) => a == b,
            _ => false,
        },
        match reply {
            Ok(p) => if p@.len() == 4 && !(p@[0] == 0 && p@[1] == 0 && p@[2] == 0 && p@[3] == 0) {
                r matches Ok(Some(ip)) && ip@ == p@
            } else {
                r matches Ok(None)
            },
            Err(Error::Framing) => r matches Ok(None),
            Err(Error::Nina) => r matches Ok(None),
            Err(e) => r == Err::<Option<[u8; 4]>, Error<E>>(e),
        },
{
    match reply {
        Ok(p) => {
            if p.len() == 4 && !(p[0] == 0 && p[1] == 0 && p[2] == 0 && p[3] == 0) {
                let ip = [p[0], p[1], p[2], p[3]];
                assert(ip@ =~= p@);
                Ok(Some(ip))
            } else {
                proof {
                    if p@.len() == 4 {
                        assert(p@ =~= seq![0u8, 0u8, 0u8, 0u8]);
                    }
                }
                Ok(None)
            }
        },
        Err(Error::Framing) => Ok(None),
        Err(Error::Nina) => Ok(None),
        Err(e) => Err(e),
    }
}

/// A 4-byte `GET_HOST_BY_NAME` answer is the resolved address exactly when
/// it is not `0.0.0.0`: an address with zero bytes, such as 192.168.0.20
/// or 10.0.0.1, is an answer; only `0.0.0.0` and shorter payloads mean
/// "not resolved yet".
pub proof fn lemma_dns_answer_by_value<E>(p: Seq<u8>)
    ensures
        p.len() == 4 && !(p[0] == 0 && p[1] == 0 && p[2] == 0 && p[3] == 0) ==> dns_outcome::<E>(
            Ok(p),
        ) == Ok::<Option<Seq<u8>>, Error<E>>(Some(p)),
        (p.len() != 4 || (p[0] == 0 && p[1] == 0 && p[2] == 0 && p[3] == 0)) ==> dns_outcome::<E>(
            Ok(p),
        ) == Ok::<Option<Seq<u8>>, Error<E>>(None),
{
    if p.len() == 4 && p[0] == 0 && p[1] == 0 && p[2] == 0 && p[3] == 0 {
        assert(p =~= seq![0u8, 0u8, 0u8, 0u8]);
    }
}

/// What to do after the chip answered one send of a chunk.
#[derive(Debug, Clone, Copy, PartialEq, Eq, Structural)]
pub enum AckStep {
    /// The chip took some of the chunk: confirm it went out, then go on
    /// from the first byte it did not take.
    Confirm,
    /// The chip took nothing: send the same bytes again.
    Resend,
    /// The chip took nothing on every try ([`Error::Nina`]).
    Refused,
}

/// The plan of a TCP send: the payload goes out in pieces of at most
/// [`SEND_CHUNK`] bytes starting at the first byte not yet taken by the
/// chip. Each piece is sent up to [`SEND_TRIES`] times until the chip takes
/// some of it; what it does not take is sent again in the next piece. The
/// total is the number of payload bytes taken, saturating at `u16::MAX`.
pub struct SendPlan {
    len: usize,
    pos: usize,
    tries: u32,
    taken: usize,
    total: u16,
}

/// End of the piece that starts at `pos` of a payload of `len` bytes.
pub open spec fn chunk_end(pos: nat, len: nat) -> nat {
    if pos + SEND_CHUNK <= len {
        (pos + SEND_CHUNK) as nat
    } else {
        len
    }
}

/// `n` as a `u16` total: saturating at `u16::MAX`.
pub open spec fn sat_total(n: nat) -> u16 {
    if n > 0xFFFF {
        0xFFFF
    } else {
        n as u16
    }
}

/// The bytes of a piece of `len` bytes the chip took when it reported
/// `written`: no more than the piece holds.
pub open spec fn accepted(written: u16, len: nat) -> nat {
    if written as nat <= len {
        written as nat
    } else {
        len
    }
}

impl SendPlan {
    /// Payload length.
    pub closed spec fn len(&self) -> nat {
        self.len as nat
    }

    /// First payload byte the chip has not taken yet.
    pub closed spec fn pos(&self) -> nat {
        self.pos as nat
    }

    /// Sends of the current piece so far.
    pub closed spec fn tries(&self) -> nat {
        self.tries as nat
    }

    /// Bytes the chip took of the current piece (0 until it takes some).
    pub closed spec fn taken(&self) -> nat {
        self.taken as nat
    }

    /// Payload bytes taken by the chip so far, saturating at `u16::MAX`.
    pub closed spec fn sent(&self) -> u16 {
        self.total
    }

    /// The plan's invariant: the position stays in the payload, the tries
    /// in their budget, what was taken in the current piece within it, and
    /// the total is the position (saturating).
    pub closed spec fn wf(&self) -> bool {
        &&& self.pos <= self.len
        &&& self.tries <= SEND_TRIES
        &&& self.pos + self.taken <= chunk_end(self.pos as nat, self.len as nat)
        &&& self.total == sat_total(self.pos as nat)
    }

    /// The plan of sending `len` bytes.
    pub fn new(len: usize) -> (p: SendPlan)
        ensures
            p.wf(),
            p.len() == len,
            p.pos() == 0,
            p.tries() == 0,
            p.taken() == 0,
            p.sent() == 0,
    {
        SendPlan { len, pos: 0, tries: 0, taken: 0, total: 0 }
    }

    /// The piece to send next as a range of the payload, or `None` once the
    /// chip took every byte.
    pub fn chunk(&self) -> (r: Option<(usize, usize)>)
        requires
            self.wf(),
        ensures
            match r {
                None => self.pos() == self.len(),
                Some((a, b)) => self.pos() < self.len() && a == self.pos() && b == chunk_end(
                    self.pos(),
                    self.len(),
                ) && a < b,
            },
    {
        if self.pos == self.len {
            None
        } else if self.len - self.pos >= SEND_CHUNK {
            Some((self.pos, self.pos + SEND_CHUNK))
        } else {
            Some((self.pos, self.len))
        }
    }

    /// Record the count `written` the chip reported for one send of the
    /// current piece.
    pub fn on_ack(&mut self, written: u16) -> (s: AckStep)
        requires
            old(self).wf(),
            old(self).pos() < old(self).len(),
            old(self).tries() < SEND_TRIES,
            old(self).taken() == 0,
        ensures
            final(self).wf(),
            final(self).len() == old(self).len(),
            final(self).pos() == old(self).pos(),
            final(self).sent() == old(self).sent(),
            final(self).tries() == old(self).tries() + 1,
            final(self).taken() == accepted(
                written,
                (chunk_end(old(self).pos(), old(self).len()) - old(self).pos()) as nat,
            ),
            s == (if written > 0 {
                AckStep::Confirm
            } else if final(self).tries() < SEND_TRIES {
                AckStep::Resend
            } else {
                AckStep::Refused
            }),
    {
        self.tries = self.tries + 1;
        let piece = if self.len - self.pos >= SEND_CHUNK {
            SEND_CHUNK
        } else {
            self.len - self.pos
        };
        self.taken = if (written as usize) <= piece {
            written as usize
        } else {
            piece
        };
        if written > 0 {
            AckStep::Confirm
        } else if self.tries < SEND_TRIES {
            AckStep::Resend
        } else {
            AckStep::Refused
        }
    }

    /// The taken bytes went out: count them and move past them. Bytes of
    /// the piece the chip did not take come first in the next piece.
    pub fn on_sent(&mut self)
        requires
            old(self).wf(),
            old(self).taken() > 0,
        ensures
            final(self).wf(),
            final(self).len() == old(self).len(),
            final(self).pos() == old(self).pos() + old(self).taken(),
            final(self).sent() == sat_total(final(self).pos()),
            final(self).pos() <= 65535 ==> final(self).sent() == final(self).pos() as u16,
            final(self).pos() > 65535 ==> final(self).sent() == 65535,
            final(self).tries() == 0,
            final(self).taken() == 0,
    {
        let t = self.taken;
        self.pos = self.pos + t;
        self.total = self.total.saturating_add(t as u16);
        self.tries = 0;
        self.taken = 0;
    }

    /// Payload bytes the chip took in all, saturating at `u16::MAX`.
    pub fn sent_total(&self) -> (t: u16)
        ensures
            t == self.sent(),
    {
        self.total
    }
}

/// A plan that ran to its end reports the whole payload as sent (saturating
/// at `u16::MAX`), whatever the nonzero counts the chip acknowledged on the
/// way: a send that succeeds returns the payload length.
pub proof fn lemma_send_plan_total(p: SendPlan)
    requires
        p.wf(),
        p.pos() == p.len(),
    ensures
        p.sent() == sat_total(p.len()),
        p.len() <= 65535 ==> p.sent() == p.len() as u16,
        p.len() > 65535 ==> p.sent() == 65535,
{
}

/// Every confirmed piece moves the plan forward: no payload byte is skipped
/// and none is counted twice, and the plan ends after at most `len`
/// confirmations.
pub proof fn lemma_send_plan_progress(p: SendPlan, q: SendPlan)
    requires
        p.wf(),
        p.taken() > 0,
        q.pos() == p.pos() + p.taken(),
        q.len() == p.len(),
    ensures
        p.pos() < q.pos() <= q.len(),
        q.len() - q.pos() < p.len() - p.pos(),
{
}

} // verus!
