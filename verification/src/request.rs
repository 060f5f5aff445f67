//! The command frame of every chip operation: which opcode, and which
//! parameters in which order and byte order.
use vstd::prelude::*;

use crate::driver::Socket;
use crate::error::Error;
use crate::frame::{command_frame, encode_command, encode_mixed_command, views, MAX_MIXED_FRAME};
use crate::proto::{
    CMD_AVAIL_DATA_TCP, CMD_DATA_SENT_TCP, CMD_DISCONNECT, CMD_GET_ANALOG_READ, CMD_GET_CLIENT_STATE_TCP, CMD_GET_CONN_STATUS, CMD_GET_CURR_BSSID, CMD_GET_CURR_ENCT, CMD_GET_CURR_RSSI, CMD_GET_CURR_SSID, CMD_GET_DATABUF_TCP, CMD_GET_DIGITAL_READ, CMD_GET_FW_VERSION, CMD_GET_HOST_BY_NAME, CMD_GET_IDX_BSSID, CMD_GET_IDX_CHANNEL, CMD_GET_IDX_ENCT, CMD_GET_IDX_RSSI, CMD_GET_IPADDR, CMD_GET_MAC_ADDR, CMD_GET_REASON_CODE, CMD_GET_REMOTE_DATA, CMD_GET_SOCKET, CMD_GET_TEMPERATURE, CMD_INSERT_DATABUF, CMD_PING, CMD_REQ_HOST_BY_NAME, CMD_SCAN_NETWORKS, CMD_SEND_DATA_TCP, CMD_SEND_UDP_DATA, CMD_SET_ANALOG_WRITE, CMD_SET_AP_NET, CMD_SET_AP_PASSPHRASE, CMD_SET_DIGITAL_WRITE, CMD_SET_DNS_CONFIG, CMD_SET_HOSTNAME, CMD_SET_NET, CMD_SET_PASSPHRASE, CMD_SET_PIN_MODE, CMD_SET_POWER_MODE, CMD_START_CLIENT_TCP, CMD_START_SCAN_NETWORKS, CMD_START_SERVER_TCP, CMD_STOP_CLIENT_TCP, DUMMY, END_CMD, Param, PinMode, START_CMD, TCP_MODE, UDP_MODE,
};

verus! {

/// A port (or any 16-bit value) in network byte order.
pub open spec fn be16_bytes(x: u16) -> Seq<u8> {
    seq![(x / 256) as u8, (x % 256) as u8]
}

/// A 16-bit value in little-endian byte order.
pub open spec fn le16_bytes(x: u16) -> Seq<u8> {
    seq![(x % 256) as u8, (x / 256) as u8]
}

/// `x` in network (big-endian) byte order.
pub fn be16(x: u16) -> (r: [u8; 2])
    ensures
        r@ == be16_bytes(x),
{
    let r = [(x / 256) as u8, (x % 256) as u8];
    assert(r@ =~= be16_bytes(x));
    r
}

/// `x` in little-endian byte order.
pub fn le16(x: u16) -> (r: [u8; 2])
    ensures
        r@ == le16_bytes(x),
{
    let r = [(x % 256) as u8, (x / 256) as u8];
    assert(r@ =~= le16_bytes(x));
    r
}

/// A port written in network byte order reads back as the same port.
pub proof fn lemma_be16_roundtrip(x: u16)
    ensures
        (be16_bytes(x)[0] * 256 + be16_bytes(x)[1]) as u16 == x,
{
}

/// A value written little-endian reads back as the same value.
pub proof fn lemma_le16_roundtrip(x: u16)
    ensures
        crate::reply::le_u16(le16_bytes(x)[0], le16_bytes(x)[1]) == x,
{
}

/// A command without parameters.
fn bare(cmd: u8) -> (f: Vec<u8>)
    ensures
        f@ == command_frame(cmd, seq![]),
{
    let ps: [&[u8]; 0] = [];
    let f = encode_command(cmd, &ps);
    assert(views(ps@) =~= seq![]);
    f
}

/// A command with one single-byte parameter.
fn with_byte(cmd: u8, b: u8) -> (f: Vec<u8>)
    ensures
        f@ == command_frame(cmd, seq![seq![b]]),
{
    let a: [u8; 1] = [b];
    let ps: [&[u8]; 1] = [&a];
    let f = encode_command(cmd, &ps);
    assert(a@ =~= seq![b]);
    assert(views(ps@) =~~= seq![seq![b]]);
    f
}

/// A query carrying the firmware's dummy parameter.
fn query(cmd: u8) -> (f: Vec<u8>)
    ensures
        f@ == command_frame(cmd, seq![seq![DUMMY]]),
{
    with_byte(cmd, DUMMY)
}

/// A command with one parameter.
fn with_bytes(cmd: u8, p: &[u8]) -> (f: Vec<u8>)
    ensures
        f@ == command_frame(cmd, seq![p@]),
{
    let ps: [&[u8]; 1] = [p];
    let f = encode_command(cmd, &ps);
    assert(views(ps@) =~~= seq![p@]);
    f
}

/// Read the firmware version string.
pub fn get_fw_version() -> (f: Vec<u8>)
    ensures
        f@ == command_frame(CMD_GET_FW_VERSION, seq![]),
{
    bare(CMD_GET_FW_VERSION)
}

/// Start a Wi-Fi scan.
pub fn start_scan_networks() -> (f: Vec<u8>)
    ensures
        f@ == command_frame(CMD_START_SCAN_NETWORKS, seq![]),
{
    bare(CMD_START_SCAN_NETWORKS)
}

/// Fetch the SSIDs found by the last scan.
pub fn scan_networks() -> (f: Vec<u8>)
    ensures
        f@ == command_frame(CMD_SCAN_NETWORKS, seq![]),
{
    bare(CMD_SCAN_NETWORKS)
}

/// Read the STA MAC address.
pub fn mac_addr() -> (f: Vec<u8>)
    ensures
        f@ == command_frame(CMD_GET_MAC_ADDR, seq![seq![DUMMY]]),
{
    query(CMD_GET_MAC_ADDR)
}

/// Read the SSID of the current association.
pub fn current_ssid() -> (f: Vec<u8>)
    ensures
        f@ == command_frame(CMD_GET_CURR_SSID, seq![seq![DUMMY]]),
{
    query(CMD_GET_CURR_SSID)
}

/// Read the RSSI of scan result `index`.
pub fn scan_rssi(index: u8) -> (f: Vec<u8>)
    ensures
        f@ == command_frame(CMD_GET_IDX_RSSI, seq![seq![index]]),
{
    with_byte(CMD_GET_IDX_RSSI, index)
}

/// Read the encryption type of scan result `index`.
pub fn scan_enct(index: u8) -> (f: Vec<u8>)
    ensures
        f@ == command_frame(CMD_GET_IDX_ENCT, seq![seq![index]]),
{
    with_byte(CMD_GET_IDX_ENCT, index)
}

/// Read the channel of scan result `index`.
pub fn scan_channel(index: u8) -> (f: Vec<u8>)
    ensures
        f@ == command_frame(CMD_GET_IDX_CHANNEL, seq![seq![index]]),
{
    with_byte(CMD_GET_IDX_CHANNEL, index)
}

/// Read the BSSID of scan result `index`.
pub fn scan_bssid(index: u8) -> (f: Vec<u8>)
    ensures
        f@ == command_frame(CMD_GET_IDX_BSSID, seq![seq![index]]),
{
    with_byte(CMD_GET_IDX_BSSID, index)
}

/// Set the DHCP hostname.
pub fn set_hostname(name: &[u8]) -> (f: Vec<u8>)
    ensures
        f@ == command_frame(CMD_SET_HOSTNAME, seq![name@]),
{
    with_bytes(CMD_SET_HOSTNAME, name)
}

/// Read the chip temperature.
pub fn get_temperature() -> (f: Vec<u8>)
    ensures
        f@ == command_frame(CMD_GET_TEMPERATURE, seq![]),
{
    bare(CMD_GET_TEMPERATURE)
}

/// Read the RSSI of the current association.
pub fn get_current_rssi() -> (f: Vec<u8>)
    ensures
        f@ == command_frame(CMD_GET_CURR_RSSI, seq![seq![DUMMY]]),
{
    query(CMD_GET_CURR_RSSI)
}

/// Read the BSSID of the current association.
pub fn get_current_bssid() -> (f: Vec<u8>)
    ensures
        f@ == command_frame(CMD_GET_CURR_BSSID, seq![seq![DUMMY]]),
{
    query(CMD_GET_CURR_BSSID)
}

/// Read the encryption type of the current association.
pub fn get_current_enct() -> (f: Vec<u8>)
    ensures
        f@ == command_frame(CMD_GET_CURR_ENCT, seq![seq![DUMMY]]),
{
    query(CMD_GET_CURR_ENCT)
}

/// Read the last disconnect reason code.
pub fn get_reason_code() -> (f: Vec<u8>)
    ensures
        f@ == command_frame(CMD_GET_REASON_CODE, seq![seq![DUMMY]]),
{
    query(CMD_GET_REASON_CODE)
}

/// Read a NINA-side GPIO.
pub fn digital_read(pin: u8) -> (f: Vec<u8>)
    ensures
        f@ == command_frame(CMD_GET_DIGITAL_READ, seq![seq![pin]]),
{
    with_byte(CMD_GET_DIGITAL_READ, pin)
}

/// Read a NINA-side ADC pin.
pub fn analog_read(pin: u8) -> (f: Vec<u8>)
    ensures
        f@ == command_frame(CMD_GET_ANALOG_READ, seq![seq![pin]]),
{
    with_byte(CMD_GET_ANALOG_READ, pin)
}

/// Tear down the current association.
pub fn disconnect() -> (f: Vec<u8>)
    ensures
        f@ == command_frame(CMD_DISCONNECT, seq![seq![DUMMY]]),
{
    query(CMD_DISCONNECT)
}

/// Queue a DNS lookup of `hostname`.
pub fn req_host_by_name(hostname: &[u8]) -> (f: Vec<u8>)
    ensures
        f@ == command_frame(CMD_REQ_HOST_BY_NAME, seq![hostname@]),
{
    with_bytes(CMD_REQ_HOST_BY_NAME, hostname)
}

/// Collect the result of the queued DNS lookup.
pub fn get_host_by_name() -> (f: Vec<u8>)
    ensures
        f@ == command_frame(CMD_GET_HOST_BY_NAME, seq![]),
{
    bare(CMD_GET_HOST_BY_NAME)
}

/// Reserve a socket slot.
pub fn tcp_open_socket() -> (f: Vec<u8>)
    ensures
        f@ == command_frame(CMD_GET_SOCKET, seq![]),
{
    bare(CMD_GET_SOCKET)
}

/// Read the TCP state of `sock`.
pub fn tcp_state(sock: Socket) -> (f: Vec<u8>)
    ensures
        f@ == command_frame(CMD_GET_CLIENT_STATE_TCP, seq![seq![sock.id()]]),
{
    with_byte(CMD_GET_CLIENT_STATE_TCP, sock.raw())
}

/// Read the number of bytes waiting on `sock`.
pub fn tcp_avail(sock: Socket) -> (f: Vec<u8>)
    ensures
        f@ == command_frame(CMD_AVAIL_DATA_TCP, seq![seq![sock.id()]]),
{
    with_byte(CMD_AVAIL_DATA_TCP, sock.raw())
}

/// Ask whether the last payload sent on `sock` went out.
pub fn check_data_sent(sock: Socket) -> (f: Vec<u8>)
    ensures
        f@ == command_frame(CMD_DATA_SENT_TCP, seq![seq![sock.id()]]),
{
    with_byte(CMD_DATA_SENT_TCP, sock.raw())
}

/// Transmit the UDP packet buffered on `sock`.
pub fn udp_end_packet(sock: Socket) -> (f: Vec<u8>)
    ensures
        f@ == command_frame(CMD_SEND_UDP_DATA, seq![seq![sock.id()]]),
{
    with_byte(CMD_SEND_UDP_DATA, sock.raw())
}

/// Read the peer of the last datagram received on `sock`.
pub fn udp_remote(sock: Socket) -> (f: Vec<u8>)
    ensures
        f@ == command_frame(CMD_GET_REMOTE_DATA, seq![seq![sock.id()]]),
{
    with_byte(CMD_GET_REMOTE_DATA, sock.raw())
}

/// Close `sock`.
pub fn tcp_close(sock: Socket) -> (f: Vec<u8>)
    ensures
        f@ == command_frame(CMD_STOP_CLIENT_TCP, seq![seq![sock.id()]]),
{
    with_byte(CMD_STOP_CLIENT_TCP, sock.raw())
}

/// Read the Wi-Fi connection status.
pub fn status() -> (f: Vec<u8>)
    ensures
        f@ == command_frame(CMD_GET_CONN_STATUS, seq![seq![DUMMY]]),
{
    query(CMD_GET_CONN_STATUS)
}

/// Read address, subnet mask and gateway.
pub fn ip_config() -> (f: Vec<u8>)
    ensures
        f@ == command_frame(CMD_GET_IPADDR, seq![seq![DUMMY]]),
{
    query(CMD_GET_IPADDR)
}

/// Connect to a WPA2-PSK network.
pub fn connect_wpa(ssid: &[u8], passphrase: &[u8]) -> (f: Vec<u8>)
    ensures
        f@ == command_frame(CMD_SET_PASSPHRASE, seq![ssid@, passphrase@]),
{
    let ps: [&[u8]; 2] = [ssid, passphrase];
    let f = encode_command(CMD_SET_PASSPHRASE, &ps);
    assert(views(ps@) =~~= seq![ssid@, passphrase@]);
    f
}

/// Listen for TCP clients on `port` with socket `sock`. The port goes in
/// network byte order.
pub fn tcp_listen(sock: Socket, port: u16) -> (f: Vec<u8>)
    ensures
        f@ == command_frame(
            CMD_START_SERVER_TCP,
            seq![be16_bytes(port), seq![sock.id()], seq![TCP_MODE]],
        ),
{
    server_frame(sock, port, TCP_MODE)
}

/// Bind `sock` for UDP on `port`. The port goes in network byte order.
pub fn udp_bind(sock: Socket, port: u16) -> (f: Vec<u8>)
    ensures
        f@ == command_frame(
            CMD_START_SERVER_TCP,
            seq![be16_bytes(port), seq![sock.id()], seq![UDP_MODE]],
        ),
{
    server_frame(sock, port, UDP_MODE)
}

/// `START_SERVER_TCP` on `port` with socket `sock` and transport `mode`.
fn server_frame(sock: Socket, port: u16, mode: u8) -> (f: Vec<u8>)
    ensures
        f@ == command_frame(
            CMD_START_SERVER_TCP,
            seq![be16_bytes(port), seq![sock.id()], seq![mode]],
        ),
{
    let p = be16(port);
    let s: [u8; 1] = [sock.raw()];
    let m: [u8; 1] = [mode];
    let ps: [&[u8]; 3] = [&p, &s, &m];
    let f = encode_command(CMD_START_SERVER_TCP, &ps);
    assert(s@ =~= seq![sock.id()]);
    assert(m@ =~= seq![mode]);
    assert(views(ps@) =~~= seq![be16_bytes(port), seq![sock.id()], seq![mode]]);
    f
}

/// Peek for a client pending on listening socket `sock` (accept flag 0).
pub fn tcp_accept(sock: Socket) -> (f: Vec<u8>)
    ensures
        f@ == command_frame(CMD_AVAIL_DATA_TCP, seq![seq![sock.id()], seq![0u8]]),
{
    pair(CMD_AVAIL_DATA_TCP, sock.raw(), 0)
}

/// A command with two single-byte parameters.
fn pair(cmd: u8, a: u8, b: u8) -> (f: Vec<u8>)
    ensures
        f@ == command_frame(cmd, seq![seq![a], seq![b]]),
{
    let x: [u8; 1] = [a];
    let y: [u8; 1] = [b];
    let ps: [&[u8]; 2] = [&x, &y];
    let f = encode_command(cmd, &ps);
    assert(x@ =~= seq![a]);
    assert(y@ =~= seq![b]);
    assert(views(ps@) =~~= seq![seq![a], seq![b]]);
    f
}

/// Static IPv4 configuration: three values follow (address, gateway,
/// subnet mask).
pub fn set_net_config(ip: [u8; 4], gateway: [u8; 4], subnet: [u8; 4]) -> (f: Vec<u8>)
    ensures
        f@ == command_frame(CMD_SET_NET, seq![seq![3u8], ip@, gateway@, subnet@]),
{
    let n: [u8; 1] = [3];
    let ps: [&[u8]; 4] = [&n, &ip, &gateway, &subnet];
    let f = encode_command(CMD_SET_NET, &ps);
    assert(n@ =~= seq![3u8]);
    assert(views(ps@) =~~= seq![seq![3u8], ip@, gateway@, subnet@]);
    f
}

/// Primary and secondary DNS servers: two values follow.
pub fn set_dns_config(primary: [u8; 4], secondary: [u8; 4]) -> (f: Vec<u8>)
    ensures
        f@ == command_frame(CMD_SET_DNS_CONFIG, seq![seq![2u8], primary@, secondary@]),
{
    let n: [u8; 1] = [2];
    let ps: [&[u8]; 3] = [&n, &primary, &secondary];
    let f = encode_command(CMD_SET_DNS_CONFIG, &ps);
    assert(n@ =~= seq![2u8]);
    assert(views(ps@) =~~= seq![seq![2u8], primary@, secondary@]);
    f
}

/// Enable (`1`) or disable (`0`) power save.
pub fn set_power_save(enabled: bool) -> (f: Vec<u8>)
    ensures
        f@ == command_frame(CMD_SET_POWER_MODE, seq![seq![if enabled { 1u8 } else { 0u8 }]]),
{
    let v: u8 = if enabled { 1 } else { 0 };
    with_byte(CMD_SET_POWER_MODE, v)
}

/// Configure NINA-side GPIO `pin` as `mode`.
pub fn pin_mode(pin: u8, mode: PinMode) -> (f: Vec<u8>)
    ensures
        f@ == command_frame(CMD_SET_PIN_MODE, seq![seq![pin], seq![mode.code()]]),
{
    pair(CMD_SET_PIN_MODE, pin, mode.to_u8())
}

/// Drive NINA-side GPIO `pin` high (any nonzero `value`, sent as `1`) or
/// low (`0`).
pub fn digital_write(pin: u8, value: u8) -> (f: Vec<u8>)
    ensures
        f@ == command_frame(
            CMD_SET_DIGITAL_WRITE,
            seq![seq![pin], seq![if value != 0 { 1u8 } else { 0u8 }]],
        ),
{
    let v: u8 = if value != 0 { 1 } else { 0 };
    pair(CMD_SET_DIGITAL_WRITE, pin, v)
}

/// PWM write of `value` on NINA-side GPIO `pin`.
pub fn analog_write(pin: u8, value: u8) -> (f: Vec<u8>)
    ensures
        f@ == command_frame(CMD_SET_ANALOG_WRITE, seq![seq![pin], seq![value]]),
{
    pair(CMD_SET_ANALOG_WRITE, pin, value)
}

/// Start an open access point on `channel`.
pub fn start_ap_open(ssid: &[u8], channel: u8) -> (f: Vec<u8>)
    ensures
        f@ == command_frame(CMD_SET_AP_NET, seq![ssid@, seq![channel]]),
{
    let c: [u8; 1] = [channel];
    let ps: [&[u8]; 2] = [ssid, &c];
    let f = encode_command(CMD_SET_AP_NET, &ps);
    assert(c@ =~= seq![channel]);
    assert(views(ps@) =~~= seq![ssid@, seq![channel]]);
    f
}

/// Start a WPA2-PSK access point on `channel`.
pub fn start_ap_wpa(ssid: &[u8], passphrase: &[u8], channel: u8) -> (f: Vec<u8>)
    ensures
        f@ == command_frame(CMD_SET_AP_PASSPHRASE, seq![ssid@, passphrase@, seq![channel]]),
{
    let c: [u8; 1] = [channel];
    let ps: [&[u8]; 3] = [ssid, passphrase, &c];
    let f = encode_command(CMD_SET_AP_PASSPHRASE, &ps);
    assert(c@ =~= seq![channel]);
    assert(views(ps@) =~~= seq![ssid@, passphrase@, seq![channel]]);
    f
}

/// ICMP ping of `ip` with IP TTL `ttl`.
pub fn ping(ip: [u8; 4], ttl: u8) -> (f: Vec<u8>)
    ensures
        f@ == command_frame(CMD_PING, seq![ip@, seq![ttl]]),
{
    let t: [u8; 1] = [ttl];
    let ps: [&[u8]; 2] = [&ip, &t];
    let f = encode_command(CMD_PING, &ps);
    assert(t@ =~= seq![ttl]);
    assert(views(ps@) =~~= seq![ip@, seq![ttl]]);
    f
}

/// Start a TCP/UDP/TLS connection on `sock` to `ip:port`: address, port in
/// network byte order, socket, transport mode; all with 8-bit lengths.
pub fn tcp_start_client(sock: Socket, ip: [u8; 4], port: u16, mode: u8) -> (f: Vec<u8>)
    ensures
        f@ == command_frame(
            CMD_START_CLIENT_TCP,
            seq![ip@, be16_bytes(port), seq![sock.id()], seq![mode]],
        ),
{
    let p = be16(port);
    let s: [u8; 1] = [sock.raw()];
    let m: [u8; 1] = [mode];
    let ps: [&[u8]; 4] = [&ip, &p, &s, &m];
    let f = encode_command(CMD_START_CLIENT_TCP, &ps);
    assert(s@ =~= seq![sock.id()]);
    assert(m@ =~= seq![mode]);
    assert(views(ps@) =~~= seq![ip@, be16_bytes(port), seq![sock.id()], seq![mode]]);
    f
}

/// As [`tcp_start_client`], with the hostname (for TLS SNI) in front.
pub fn tcp_start_client_hostname(
    sock: Socket,
    hostname: &[u8],
    ip: [u8; 4],
    port: u16,
    mode: u8,
) -> (f: Vec<u8>)
    ensures
        f@ == command_frame(
            CMD_START_CLIENT_TCP,
            seq![hostname@, ip@, be16_bytes(port), seq![sock.id()], seq![mode]],
        ),
{
    let p = be16(port);
    let s: [u8; 1] = [sock.raw()];
    let m: [u8; 1] = [mode];
    let ps: [&[u8]; 5] = [hostname, &ip, &p, &s, &m];
    let f = encode_command(CMD_START_CLIENT_TCP, &ps);
    assert(s@ =~= seq![sock.id()]);
    assert(m@ =~= seq![mode]);
    assert(views(ps@) =~~= seq![hostname@, ip@, be16_bytes(port), seq![sock.id()], seq![mode]]);
    f
}

/// The 16-bit-length parameters `[sock]` and `data`.
pub open spec fn sock_and_data(sock: Socket, data: Seq<u8>) -> Seq<u8> {
    seq![0u8, 1u8, sock.id()] + seq![((data.len() % 65536) / 256) as u8, (data.len() % 256) as u8]
        + data
}

/// A `DATA_FLAG` command carrying `[sock]` and `data`, both with 16-bit
/// lengths. Fails with [`Error::BufferTooSmall`] when the frame exceeds the
/// frame buffer.
fn sock_data_frame<E>(cmd: u8, sock: Socket, data: &[u8]) -> (r: Result<Vec<u8>, Error<E>>)
    ensures
        match r {
            Ok(f) => data@.len() + 9 <= MAX_MIXED_FRAME && f@ == crate::frame::padded(
                seq![START_CMD, cmd & 0x7f, 2u8] + sock_and_data(sock, data@) + seq![END_CMD],
            ),
            Err(e) => data@.len() + 9 > MAX_MIXED_FRAME && e == Error::<E>::BufferTooSmall,
        },
{
    let s: [u8; 1] = [sock.raw()];
    let ps: [Param; 2] = [Param::Long(&s), Param::Long(data)];
    let r = encode_mixed_command(cmd, &ps);
    proof {
        assert(s@ =~= seq![sock.id()]);
        let v = ps@;
        assert(v.drop_last().drop_last() =~= Seq::<Param>::empty());
        assert(crate::frame::mixed_params(v.drop_last().drop_last()) == Seq::<u8>::empty());
        assert(v.drop_last().last() == Param::Long(&s));
        assert(crate::frame::mixed_param(Param::Long(&s)) =~= seq![0u8, 1u8, sock.id()]);
        assert(crate::frame::mixed_params(v.drop_last()) =~= seq![0u8, 1u8, sock.id()]);
        assert(crate::frame::mixed_params(v) =~= sock_and_data(sock, data@));
        assert(v.len() == 2);
    }
    r
}

/// Send `chunk` on TCP socket `sock`.
pub fn tcp_send_chunk<E>(sock: Socket, chunk: &[u8]) -> (r: Result<Vec<u8>, Error<E>>)
    ensures
        match r {
            Ok(f) => chunk@.len() + 9 <= MAX_MIXED_FRAME && f@ == crate::frame::padded(
                seq![START_CMD, CMD_SEND_DATA_TCP & 0x7f, 2u8] + sock_and_data(sock, chunk@)
                    + seq![END_CMD],
            ),
            Err(e) => chunk@.len() + 9 > MAX_MIXED_FRAME && e == Error::<E>::BufferTooSmall,
        },
{
    sock_data_frame(CMD_SEND_DATA_TCP, sock, chunk)
}

/// Append `data` to the UDP packet being built on `sock`.
pub fn udp_write<E>(sock: Socket, data: &[u8]) -> (r: Result<Vec<u8>, Error<E>>)
    ensures
        match r {
            Ok(f) => data@.len() + 9 <= MAX_MIXED_FRAME && f@ == crate::frame::padded(
                seq![START_CMD, CMD_INSERT_DATABUF & 0x7f, 2u8] + sock_and_data(sock, data@)
                    + seq![END_CMD],
            ),
            Err(e) => data@.len() + 9 > MAX_MIXED_FRAME && e == Error::<E>::BufferTooSmall,
        },
{
    sock_data_frame(CMD_INSERT_DATABUF, sock, data)
}

/// How many bytes a receive into a buffer of `len` bytes asks for: the
/// buffer length, capped to what a `u16` holds.
pub open spec fn recv_want(len: nat) -> u16 {
    if len > 0xFFFF {
        0xFFFF
    } else {
        len as u16
    }
}

/// Pull up to `out_len` bytes from `sock`. The amount asked for goes in
/// little-endian byte order (the firmware reads it without `ntohs`).
pub fn tcp_recv(sock: Socket, out_len: usize) -> (f: Vec<u8>)
    ensures
        f@ == crate::frame::padded(
            seq![START_CMD, CMD_GET_DATABUF_TCP & 0x7f, 2u8] + sock_and_data(
                sock,
                le16_bytes(recv_want(out_len as nat)),
            ) + seq![END_CMD],
        ),
{
    let want: u16 = if out_len > 0xFFFF { 0xFFFF } else { out_len as u16 };
    let w = le16(want);
    match sock_data_frame::<()>(CMD_GET_DATABUF_TCP, sock, &w) {
        Ok(f) => f,
        Err(_) => {
            proof { assert(false); }
            Vec::new()
        },
    }
}

} // verus!
