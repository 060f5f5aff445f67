use embassy_nina::error::Error;
use embassy_nina::reply::{
    accepted_from_wire, analog_from_wire, check_ack, digital_level, f32_bits_from_wire, first_byte,
    fw_version, i32_from_wire, ip_config_from_wire, mac_from_wire, opened_from_wire, ping_from_wire,
    remote_from_wire, scan_rssi_from_wire, u16_from_wire,
};

#[test]
fn ack_status_byte() {
    assert!(check_ack::<()>(&[1]).is_ok());
    assert!(matches!(check_ack::<()>(&[0]), Err(Error::Nina)));
    assert!(matches!(check_ack::<()>(&[]), Err(Error::Nina)));
    assert_eq!(first_byte(&[]), 0);
    assert_eq!(first_byte(&[9, 8]), 9);
    assert!(digital_level(&[2]));
    assert!(!digital_level(&[]));
}

#[test]
fn firmware_version_stops_at_nul() {
    assert_eq!(fw_version(b"1.4.8\0"), b"1.4.8");
    assert_eq!(fw_version(b"3.0.1"), b"3.0.1");
    assert_eq!(fw_version(b"\0abc"), b"");
}

#[test]
fn mac_is_reversed() {
    let m = mac_from_wire::<()>(&[1, 2, 3, 4, 5, 6]).ok().unwrap();
    assert_eq!(m, [6, 5, 4, 3, 2, 1]);
    assert!(matches!(mac_from_wire::<()>(&[1, 2, 3, 4, 5]), Err(Error::Framing)));
}

#[test]
fn rssi_and_words() {
    assert_eq!(scan_rssi_from_wire::<()>(&[0xCE, 0xFF, 0xFF, 0xFF]).ok().unwrap(), -50);
    assert!(matches!(scan_rssi_from_wire::<()>(&[0xCE]), Err(Error::Framing)));
    assert_eq!(i32_from_wire::<()>(&[0xCE, 0xFF, 0xFF, 0xFF]).ok().unwrap(), -50);
    assert_eq!(i32_from_wire::<()>(&[0x01, 0x02, 0x03, 0x04]).ok().unwrap(), 0x04030201);
    let bits = f32_bits_from_wire::<()>(&[0x00, 0x00, 0xC8, 0x41]).ok().unwrap();
    assert_eq!(f32::from_bits(bits), 25.0f32);
    assert!(matches!(f32_bits_from_wire::<()>(&[0; 3]), Err(Error::Framing)));
}

#[test]
fn sixteen_bit_values() {
    assert_eq!(u16_from_wire::<()>(&[7]).ok().unwrap(), 7);
    assert_eq!(u16_from_wire::<()>(&[0x34, 0x12]).ok().unwrap(), 0x1234);
    assert!(matches!(u16_from_wire::<()>(&[]), Err(Error::Framing)));
    assert!(matches!(u16_from_wire::<()>(&[1, 2, 3]), Err(Error::Framing)));
}

#[test]
fn analog_reading_saturates() {
    assert_eq!(analog_from_wire::<()>(&[0xFF, 0x03]).ok().unwrap(), 1023);
    assert_eq!(analog_from_wire::<()>(&[0x10, 0x00, 0x00, 0x00]).ok().unwrap(), 16);
    assert_eq!(analog_from_wire::<()>(&[0x00, 0x00, 0x01, 0x00]).ok().unwrap(), 0xFFFF);
    assert!(matches!(analog_from_wire::<()>(&[1, 2, 3]), Err(Error::Framing)));
}

#[test]
fn ping_unreachable_is_nina_error() {
    assert_eq!(ping_from_wire::<()>(&[23, 0]).ok().unwrap(), 23);
    assert!(matches!(ping_from_wire::<()>(&[0xFF, 0xFF]), Err(Error::Nina)));
    assert!(matches!(ping_from_wire::<()>(&[]), Err(Error::Framing)));
}

#[test]
fn accept_reports_pending_client() {
    assert_eq!(accepted_from_wire::<()>(&[3, 0]).ok().unwrap().unwrap().raw(), 3);
    assert!(accepted_from_wire::<()>(&[0xFF, 0x00]).ok().unwrap().is_none());
    assert!(accepted_from_wire::<()>(&[0xFF, 0xFF]).ok().unwrap().is_none());
    assert!(accepted_from_wire::<()>(&[0xFF]).ok().unwrap().is_none());
    assert!(matches!(accepted_from_wire::<()>(&[1, 2, 3]), Err(Error::Framing)));
}

#[test]
fn socket_reservation() {
    assert_eq!(opened_from_wire::<()>(&[2]).ok().unwrap().raw(), 2);
    assert_eq!(opened_from_wire::<()>(&[]).ok().unwrap().raw(), 0);
    assert!(matches!(opened_from_wire::<()>(&[0xFF]), Err(Error::Nina)));
}

#[test]
fn ip_config_from_packed_params() {
    let packed = [4, 192, 168, 1, 20, 4, 255, 255, 255, 0, 4, 192, 168, 1, 1];
    let c = ip_config_from_wire::<()>(3, &packed).ok().unwrap();
    assert_eq!(c.ip, [192, 168, 1, 20]);
    assert_eq!(c.subnet, [255, 255, 255, 0]);
    assert_eq!(c.gateway, [192, 168, 1, 1]);
    assert!(matches!(ip_config_from_wire::<()>(2, &packed), Err(Error::Framing)));
    assert!(matches!(ip_config_from_wire::<()>(3, &packed[..14]), Err(Error::Framing)));
    let mut bad = packed;
    bad[5] = 3;
    assert!(matches!(ip_config_from_wire::<()>(3, &bad), Err(Error::Framing)));
}

#[test]
fn udp_peer_from_packed_params() {
    let packed = [4, 162, 159, 200, 1, 2, 0x00, 0x7B];
    let (ip, port) = remote_from_wire::<()>(&packed).ok().unwrap();
    assert_eq!(ip, [162, 159, 200, 1]);
    assert_eq!(port, 123);
    assert!(matches!(remote_from_wire::<()>(&packed[..7]), Err(Error::Framing)));
    let mut bad = packed;
    bad[5] = 4;
    assert!(matches!(remote_from_wire::<()>(&bad), Err(Error::Framing)));
}
