use embassy_nina::error::{Error, IoErrorKind};
use embassy_nina::reply::accepted_from_wire;
use embassy_nina::{IpConfig, Nina, NinaTcpSocket, NoPin};

#[test]
fn socket_index_in_decimal() {
    let s = accepted_from_wire::<()>(&[200, 0]).ok().unwrap().unwrap();
    assert_eq!(s.raw(), 200);
    assert_eq!(s.to_string(), "200");
    let t = accepted_from_wire::<()>(&[7]).ok().unwrap().unwrap();
    assert_eq!(t.to_string(), "7");
    let u = accepted_from_wire::<()>(&[42]).ok().unwrap().unwrap();
    assert_eq!(u.to_string(), "42");
}

#[test]
fn ip_config_default_is_zero() {
    let c = IpConfig::default();
    assert_eq!(c.ip, [0; 4]);
    assert_eq!(c.subnet, [0; 4]);
    assert_eq!(c.gateway, [0; 4]);
}

#[test]
fn driver_holds_its_parts() {
    let mut n = Nina::new(1u8, 2u8, 3u8, 4u8, NoPin);
    assert_eq!(*n.bus_mut(), 1);
    *n.cs_mut() = 9;
    assert_eq!(*n.cs_mut(), 9);
    assert_eq!(*n.ack_mut(), 3);
    assert_eq!(*n.rst_mut(), 4);
    let sock = accepted_from_wire::<()>(&[3]).ok().unwrap().unwrap();
    let mut t = NinaTcpSocket::new(&mut n, sock);
    assert_eq!(t.socket().raw(), 3);
    assert_eq!(*t.chip().bus_mut(), 1);
}

#[test]
fn error_kinds() {
    assert_eq!(Error::<()>::Framing.kind(), IoErrorKind::InvalidData);
    assert_eq!(Error::<()>::Timeout.kind(), IoErrorKind::TimedOut);
    assert_eq!(Error::<()>::BufferTooSmall.kind(), IoErrorKind::OutOfMemory);
    assert_eq!(Error::<()>::Unsupported.kind(), IoErrorKind::Unsupported);
    assert_eq!(Error::Spi(1u8).kind(), IoErrorKind::Other);
    assert_eq!(Error::<()>::Pin.kind(), IoErrorKind::Other);
    assert_eq!(Error::<()>::Nina.kind(), IoErrorKind::Other);
    let e: Error<u8> = Error::from(5u8);
    assert!(matches!(e, Error::Spi(5)));
}
