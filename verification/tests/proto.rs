use embassy_nina::proto::{EncType, PinMode, SockState, WlStatus};

#[test]
fn sock_state_codes_roundtrip() {
    for b in 0u8..=10 {
        assert_eq!(SockState::from_u8(b).to_u8(), b);
    }
    assert_eq!(SockState::from_u8(4), SockState::Established);
    assert_eq!(SockState::from_u8(11), SockState::Unknown);
    assert_eq!(SockState::from_u8(0xFF).to_u8(), 0xFF);
}

#[test]
fn enc_type_codes_roundtrip() {
    for b in [0u8, 2, 4, 5, 7, 8] {
        assert_eq!(EncType::from_u8(b).to_u8(), b);
    }
    assert_eq!(EncType::from_u8(4), EncType::Ccmp);
    assert_eq!(EncType::from_u8(7), EncType::Unencrypted);
    assert_eq!(EncType::from_u8(3), EncType::Other);
}

#[test]
fn wl_status_codes_roundtrip() {
    for b in 0u8..=9 {
        assert_eq!(WlStatus::from_u8(b).to_u8(), b);
    }
    assert_eq!(WlStatus::from_u8(3), WlStatus::Connected);
    assert_eq!(WlStatus::from_u8(10), WlStatus::NoShield);
    assert_eq!(WlStatus::NoShield.to_u8(), 255);
}

#[test]
fn pin_mode_codes() {
    assert_eq!(PinMode::Input.to_u8(), 0);
    assert_eq!(PinMode::Output.to_u8(), 1);
    assert_eq!(PinMode::InputPullup.to_u8(), 2);
}
