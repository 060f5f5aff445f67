use embassy_nina::error::Error;
use embassy_nina::proto::{PinMode, END_CMD, START_CMD};
use embassy_nina::reply::opened_from_wire;
use embassy_nina::request;

fn sock(n: u8) -> embassy_nina::Socket {
    opened_from_wire::<()>(&[n]).ok().unwrap()
}

#[test]
fn start_client_sends_port_big_endian() {
    let f = request::tcp_start_client(sock(3), [192, 168, 1, 2], 80, 0);
    assert_eq!(
        f,
        vec![START_CMD, 0x2D, 4, 4, 192, 168, 1, 2, 2, 0, 80, 1, 3, 1, 0, END_CMD]
    );
    assert_eq!(request::be16(0x1F90), [0x1F, 0x90]);
    assert_eq!(request::le16(0x1F90), [0x90, 0x1F]);
}

#[test]
fn listen_and_udp_bind_frames() {
    let f = request::tcp_listen(sock(1), 8080);
    assert_eq!(f, vec![START_CMD, 0x28, 3, 2, 0x1F, 0x90, 1, 1, 1, 0, END_CMD, 0xFF]);
    let u = request::udp_bind(sock(1), 123);
    assert_eq!(u, vec![START_CMD, 0x28, 3, 2, 0, 123, 1, 1, 1, 1, END_CMD, 0xFF]);
}

#[test]
fn recv_asks_little_endian_capped_amount() {
    let f = request::tcp_recv(sock(2), 300);
    assert_eq!(f, vec![START_CMD, 0x45, 2, 0, 1, 2, 0, 2, 0x2C, 0x01, END_CMD, 0xFF]);
    let g = request::tcp_recv(sock(2), 100_000);
    assert_eq!(&g[6..10], &[0, 2, 0xFF, 0xFF]);
}

#[test]
fn send_chunk_frame_and_overflow() {
    let f = request::tcp_send_chunk::<()>(sock(5), b"GET").ok().unwrap();
    assert_eq!(f, vec![START_CMD, 0x44, 2, 0, 1, 5, 0, 3, b'G', b'E', b'T', END_CMD]);
    let big = vec![0u8; 300];
    assert!(matches!(request::udp_write::<()>(sock(5), &big), Err(Error::BufferTooSmall)));
}

#[test]
fn gpio_and_config_frames() {
    assert_eq!(
        request::pin_mode(27, PinMode::Output),
        vec![START_CMD, 0x50, 2, 1, 27, 1, 1, END_CMD]
    );
    assert_eq!(
        request::digital_write(25, 7),
        vec![START_CMD, 0x51, 2, 1, 25, 1, 1, END_CMD]
    );
    assert_eq!(request::set_power_save(true), vec![START_CMD, 0x17, 1, 1, 1, END_CMD, 0xFF, 0xFF]);
    let f = request::set_net_config([10, 0, 0, 2], [10, 0, 0, 1], [255, 0, 0, 0]);
    assert_eq!(f.len() % 4, 0);
    assert_eq!(&f[..5], &[START_CMD, 0x10, 4, 1, 3]);
    assert_eq!(request::disconnect(), vec![START_CMD, 0x30, 1, 1, 0xFF, END_CMD, 0xFF, 0xFF]);
    assert_eq!(request::get_fw_version(), vec![START_CMD, 0x37, 0, END_CMD]);
}

#[test]
fn connect_and_ap_frames() {
    let f = request::connect_wpa(b"net", b"secret12");
    assert_eq!(&f[..8], &[START_CMD, 0x11, 2, 3, b'n', b'e', b't', 8]);
    assert_eq!(f[16], END_CMD);
    assert_eq!(f.len(), 20);
    let ap = request::start_ap_open(b"ap", 6);
    assert_eq!(ap, vec![START_CMD, 0x18, 2, 2, b'a', b'p', 1, 6, END_CMD, 0xFF, 0xFF, 0xFF]);
    let h = request::tcp_start_client_hostname(sock(0), b"a.io", [1, 2, 3, 4], 443, 2);
    assert_eq!(&h[..8], &[START_CMD, 0x2D, 5, 4, b'a', b'.', b'i', b'o']);
}
