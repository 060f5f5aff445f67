//! Driver error type used throughout the crate.
use vstd::prelude::*;

verus! {

/// Driver-level error.
///
/// The SPI bus error is carried through; pin errors collapse to
/// [`Error::Pin`].
#[derive(Debug)]
pub enum Error<SpiErr> {
    /// Underlying SPI bus error.
    Spi(SpiErr),
    /// A digital pin operation returned an error.
    Pin,
    /// Reply framing did not match the protocol (wrong reply opcode,
    /// missing `END_CMD`, unexpected parameter count or length, ...).
    Framing,
    /// The chip answered with `ERR_CMD`, or refused the command.
    Nina,
    /// `START_CMD` did not show up within the polling budget, or a
    /// polling loop ran out of attempts.
    Timeout,
    /// A payload is larger than the buffer meant to hold it.
    BufferTooSmall,
    /// Operation not supported by the firmware (e.g. IPv6 DNS).
    Unsupported,
}

/// The I/O error class an [`Error`] belongs to (the categories of
/// `embedded_io::ErrorKind` that the driver uses).
#[derive(Debug, Clone, Copy, PartialEq, Eq, Structural)]
pub enum IoErrorKind {
    /// Any other error.
    Other,
    /// Malformed data from the peer.
    InvalidData,
    /// The operation timed out.
    TimedOut,
    /// A buffer was too small.
    OutOfMemory,
    /// The operation is not supported.
    Unsupported,
}

impl<E> Error<E> {
    /// The I/O error class of each error.
    pub open spec fn kind_of(&self) -> IoErrorKind {
        match self {
            Error::Spi(_) => IoErrorKind::Other,
            Error::Pin => IoErrorKind::Other,
            Error::Framing => IoErrorKind::InvalidData,
            Error::Nina => IoErrorKind::Other,
            Error::Timeout => IoErrorKind::TimedOut,
            Error::BufferTooSmall => IoErrorKind::OutOfMemory,
            Error::Unsupported => IoErrorKind::Unsupported,
        }
    }

    /// Classify the error for `embedded-io` consumers.
    pub fn kind(&self) -> (k: IoErrorKind)
        ensures
            k == self.kind_of(),
    {
        match self {
            Error::Spi(_) => IoErrorKind::Other,
            Error::Pin => IoErrorKind::Other,
            Error::Framing => IoErrorKind::InvalidData,
            Error::Nina => IoErrorKind::Other,
            Error::Timeout => IoErrorKind::TimedOut,
            Error::BufferTooSmall => IoErrorKind::OutOfMemory,
            Error::Unsupported => IoErrorKind::Unsupported,
        }
    }
}

impl<E> From<E> for Error<E> {
    fn from(e: E) -> (r: Self) {
        Error::Spi(e)
    }
}

impl<E> vstd::std_specs::convert::FromSpecImpl<E> for Error<E> {
    open spec fn obeys_from_spec() -> bool {
        true
    }

    open spec fn from_spec(e: E) -> Self {
        Error::Spi(e)
    }
}

} // verus!
