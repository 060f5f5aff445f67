//! Driver logic for the u-blox NINA-W102 running the Arduino WiFiNINA
//! firmware: the SPI command framing, the reply decoders, the
//! interpretation of every reply and the polling decisions of the
//! high-level operations.
pub mod driver;
pub mod error;
pub mod frame;
pub mod nal;
pub mod nopin;
pub mod poll;
pub mod proto;
pub mod reply;
pub mod request;
pub mod scan;
pub mod tcp;

pub use driver::{IpConfig, Nina, Socket};
pub use error::Error;
pub use nopin::NoPin;
pub use proto::{EncType, PinMode, SockState, WlStatus};
pub use scan::{NetworkInfo, Scan, ScanIter};
pub use tcp::NinaTcpSocket;
