//! Borrowed handle to a connected TCP socket.
use vstd::prelude::*;

use crate::driver::{Nina, Socket};

verus! {

/// Borrowed TCP socket: the driver it was opened on and the chip-side
/// socket index. Dropping it does not close the socket.
pub struct NinaTcpSocket<'a, Bus, Cs, Ack, Rst, Boot> {
    chip: &'a mut Nina<Bus, Cs, Ack, Rst, Boot>,
    sock: Socket,
}

impl<'a, Bus, Cs, Ack, Rst, Boot> NinaTcpSocket<'a, Bus, Cs, Ack, Rst, Boot> {
    /// The chip-side socket.
    pub closed spec fn sock(&self) -> Socket {
        self.sock
    }

    /// The driver the socket lives on.
    pub closed spec fn driver(&self) -> Nina<Bus, Cs, Ack, Rst, Boot> {
        *self.chip
    }

    /// Wrap the connected socket `sock` of driver `chip`.
    pub fn new(chip: &'a mut Nina<Bus, Cs, Ack, Rst, Boot>, sock: Socket) -> (s: Self)
        ensures
            s.sock() == sock,
            s.driver() == *old(chip),
    {
        NinaTcpSocket { chip, sock }
    }

    /// Firmware-side socket handle.
    pub fn socket(&self) -> (s: Socket)
        ensures
            s == self.sock(),
    {
        self.sock
    }

    /// The driver, to run the socket's exchanges on.
    pub fn chip(&mut self) -> (c: &mut Nina<Bus, Cs, Ack, Rst, Boot>)
        ensures
            *c == old(self).driver(),
            final(self).driver() == *final(c),
            final(self).sock() == old(self).sock(),
    {
        &mut *self.chip
    }
}

} // verus!
