//! What each reply payload means.
//!
//! The host reads a payload into a zeroed buffer of fixed size; bytes the
//! chip did not send read as zero. [`byte_at`] states that.
use vstd::prelude::*;

use crate::driver::{IpConfig, Socket};
use crate::error::Error;

verus! {

/// Byte `i` of a zeroed buffer after payload `p` was copied to its front.
pub open spec fn byte_at(p: Seq<u8>, i: int) -> u8 {
    if 0 <= i < p.len() {
        p[i]
    } else {
        0
    }
}

/// The little-endian `u16` of two bytes.
pub open spec fn le_u16(lo: u8, hi: u8) -> u16 {
    (lo + 256 * hi) as u16
}

/// The little-endian `u32` of the first four bytes of `p`.
pub open spec fn le_u32(p: Seq<u8>) -> u32 {
    (p[0] + 256 * p[1] + 65536 * p[2] + 16777216 * p[3]) as u32
}

/// The first byte of the reply buffer: the status or value byte of most
/// commands.
pub fn first_byte(p: &[u8]) -> (b: u8)
    ensures
        b == byte_at(p@, 0),
{
    if p.len() > 0 {
        p[0]
    } else {
        0
    }
}

/// A command acknowledged with status byte `1` succeeded; any other status
/// is [`Error::Nina`].
pub fn check_ack<E>(p: &[u8]) -> (r: Result<(), Error<E>>)
    ensures
        r == (if byte_at(p@, 0) == 1 {
            Ok::<(), Error<E>>(())
        } else {
            Err(Error::Nina)
        }),
{
    if first_byte(p) != 1 {
        Err(Error::Nina)
    } else {
        Ok(())
    }
}

/// A pin level: any nonzero byte is high.
pub fn digital_level(p: &[u8]) -> (high: bool)
    ensures
        high == (byte_at(p@, 0) != 0),
{
    first_byte(p) != 0
}

/// The firmware version string: the payload up to its first NUL byte.
pub fn fw_version(p: &[u8]) -> (v: &[u8])
    ensures
        v@.len() <= p@.len(),
        v@ == p@.take(v@.len() as int),
        forall|i: int| 0 <= i < v@.len() ==> #[trigger] p@[i] != 0,
        v@.len() == p@.len() || p@[v@.len() as int] == 0,
{
    let mut i: usize = 0;
    while i < p.len() && p[i] != 0
        invariant
            i <= p@.len(),
            forall|j: int| 0 <= j < i ==> #[trigger] p@[j] != 0,
        decreases p@.len() - i,
    {
        i = i + 1;
    }
    vstd::slice::slice_subrange(p, 0, i)
}

/// A MAC address or BSSID: six bytes, sent least significant first, put in
/// canonical order. Any other length is [`Error::Framing`].
pub fn mac_from_wire<E>(p: &[u8]) -> (r: Result<[u8; 6], Error<E>>)
    ensures
        match r {
            Ok(m) => p@.len() == 6 && m@ == p@.reverse(),
            Err(e) => p@.len() != 6 && e == Error::<E>::Framing,
        },
{
    if p.len() != 6 {
        return Err(Error::Framing);
    }
    let m = [p[5], p[4], p[3], p[2], p[1], p[0]];
    assert(m@ =~= p@.reverse());
    Ok(m)
}

/// Exactly four payload bytes, else [`Error::Framing`].
fn four<E>(p: &[u8]) -> (r: Result<u32, Error<E>>)
    ensures
        match r {
            Ok(v) => p@.len() == 4 && v == le_u32(p@),
            Err(e) => p@.len() != 4 && e == Error::<E>::Framing,
        },
{
    if p.len() != 4 {
        return Err(Error::Framing);
    }
    Ok((p[0] as u32) + 256 * (p[1] as u32) + 65536 * (p[2] as u32) + 16777216 * (p[3] as u32))
}

/// The RSSI of a scan result: a little-endian `i32` of which the low byte,
/// as a signed byte, is the value in dBm.
pub fn scan_rssi_from_wire<E>(p: &[u8]) -> (r: Result<i8, Error<E>>)
    ensures
        match r {
            Ok(v) => p@.len() == 4 && v == p@[0] as i8,
            Err(e) => p@.len() != 4 && e == Error::<E>::Framing,
        },
{
    if p.len() != 4 {
        return Err(Error::Framing);
    }
    Ok(p[0] as i8)
}

/// A little-endian `i32` (the RSSI of the current association).
pub fn i32_from_wire<E>(p: &[u8]) -> (r: Result<i32, Error<E>>)
    ensures
        match r {
            Ok(v) => p@.len() == 4 && v == le_u32(p@) as i32,
            Err(e) => p@.len() != 4 && e == Error::<E>::Framing,
        },
{
    match four(p) {
        Ok(v) => Ok(v as i32),
        Err(e) => Err(e),
    }
}

/// The bit pattern of a little-endian `f32` (the chip temperature).
pub fn f32_bits_from_wire<E>(p: &[u8]) -> (r: Result<u32, Error<E>>)
    ensures
        match r {
            Ok(v) => p@.len() == 4 && v == le_u32(p@),
            Err(e) => p@.len() != 4 && e == Error::<E>::Framing,
        },
{
    four(p)
}

/// A count or index sent on one byte, or as a little-endian `u16` on two.
/// Any other length is [`Error::Framing`].
pub open spec fn u16_reply(p: Seq<u8>) -> Option<u16> {
    if p.len() == 1 {
        Some(p[0] as u16)
    } else if p.len() == 2 {
        Some(le_u16(p[0], p[1]))
    } else {
        None
    }
}

/// Decode a one- or two-byte little-endian value.
pub fn u16_from_wire<E>(p: &[u8]) -> (r: Result<u16, Error<E>>)
    ensures
        match r {
            Ok(v) => u16_reply(p@) == Some(v),
            Err(e) => u16_reply(p@) is None && e == Error::<E>::Framing,
        },
{
    if p.len() == 1 {
        Ok(p[0] as u16)
    } else if p.len() == 2 {
        Ok((p[0] as u16) + 256 * (p[1] as u16))
    } else {
        Err(Error::Framing)
    }
}

/// An ADC reading: one or two bytes as [`u16_from_wire`], or a
/// little-endian `u32` saturated to `u16::MAX`.
pub fn analog_from_wire<E>(p: &[u8]) -> (r: Result<u16, Error<E>>)
    ensures
        match r {
            Ok(v) => (u16_reply(p@) == Some(v)) || (p@.len() == 4 && v == (if le_u32(p@) > 0xFFFF {
                0xFFFFu16
            } else {
                le_u32(p@) as u16
            })),
            Err(e) => u16_reply(p@) is None && p@.len() != 4 && e == Error::<E>::Framing,
        },
{
    if p.len() == 4 {
        let v = match four::<E>(p) {
            Ok(v) => v,
            Err(e) => {
                return Err(e);
            },
        };
        if v > 0xFFFF {
            Ok(0xFFFF)
        } else {
            Ok(v as u16)
        }
    } else {
        u16_from_wire(p)
    }
}

/// A ping round-trip time in ms; `0xFFFF` means the host did not answer
/// ([`Error::Nina`]).
pub fn ping_from_wire<E>(p: &[u8]) -> (r: Result<u16, Error<E>>)
    ensures
        match r {
            Ok(v) => u16_reply(p@) == Some(v) && v != 0xFFFF,
            Err(e) => (u16_reply(p@) is None && e == Error::<E>::Framing) || (u16_reply(p@)
                == Some(0xFFFFu16) && e == Error::<E>::Nina),
        },
{
    let v = u16_from_wire(p)?;
    if v == 0xFFFF {
        return Err(Error::Nina);
    }
    Ok(v)
}

/// The client socket pending on a listening socket: `0x00FF` or `0xFFFF`
/// means none is.
pub fn accepted_from_wire<E>(p: &[u8]) -> (r: Result<Option<Socket>, Error<E>>)
    ensures
        match r {
            Ok(None) => u16_reply(p@) == Some(0x00FFu16) || u16_reply(p@) == Some(0xFFFFu16),
            Ok(Some(s)) => u16_reply(p@) is Some && u16_reply(p@) != Some(0x00FFu16) && u16_reply(
                p@,
            ) != Some(0xFFFFu16) && s == Socket::with_id(u16_reply(p@).unwrap() as u8),
            Err(e) => u16_reply(p@) is None && e == Error::<E>::Framing,
        },
{
    let raw = u16_from_wire(p)?;
    if raw == 0x00FF || raw == 0xFFFF {
        Ok(None)
    } else {
        Ok(Some(Socket::from_raw(raw as u8)))
    }
}

/// A freshly reserved socket; `0xFF` means none is free ([`Error::Nina`]).
pub fn opened_from_wire<E>(p: &[u8]) -> (r: Result<Socket, Error<E>>)
    ensures
        match r {
            Ok(s) => byte_at(p@, 0) != 0xFF && s == Socket::with_id(byte_at(p@, 0)),
            Err(e) => byte_at(p@, 0) == 0xFF && e == Error::<E>::Nina,
        },
{
    let b = first_byte(p);
    if b == 0xFF {
        return Err(Error::Nina);
    }
    Ok(Socket::from_raw(b))
}

/// The packed parameters of the `GET_IPADDR` reply hold three 4-byte
/// values (address, subnet mask, gateway), each with its length byte.
pub open spec fn ip_config_ok(count: u8, s: Seq<u8>) -> bool {
    &&& count >= 3
    &&& s.len() >= 15
    &&& s[0] == 4
    &&& s[5] == 4
    &&& s[10] == 4
}

/// Take the three IPv4 values out of the packed `GET_IPADDR` reply. Fewer
/// than three parameters, or a value that is not four bytes long, is
/// [`Error::Framing`].
pub fn ip_config_from_wire<E>(count: u8, packed: &[u8]) -> (r: Result<IpConfig, Error<E>>)
    ensures
        match r {
            Ok(c) => ip_config_ok(count, packed@) && c.ip@ == packed@.subrange(1, 5)
                && c.subnet@ == packed@.subrange(6, 10) && c.gateway@ == packed@.subrange(11, 15),
            Err(e) => !ip_config_ok(count, packed@) && e == Error::<E>::Framing,
        },
{
    if count < 3 {
        return Err(Error::Framing);
    }
    let ip = v4_at(packed, 0)?;
    let subnet = v4_at(packed, 5)?;
    let gateway = v4_at(packed, 10)?;
    Ok(IpConfig { ip, subnet, gateway })
}

/// The length-prefixed 4-byte value at `cur` of the packed parameters.
fn v4_at<E>(s: &[u8], cur: usize) -> (r: Result<[u8; 4], Error<E>>)
    requires
        cur <= 10,
    ensures
        match r {
            Ok(v) => cur + 5 <= s@.len() && s@[cur as int] == 4 && v@ == s@.subrange(
                cur + 1,
                cur + 5,
            ),
            Err(e) => !(cur + 5 <= s@.len() && s@[cur as int] == 4) && e == Error::<E>::Framing,
        },
{
    if cur + 1 > s.len() {
        return Err(Error::Framing);
    }
    if s[cur] != 4 || cur + 5 > s.len() {
        return Err(Error::Framing);
    }
    let v = [s[cur + 1], s[cur + 2], s[cur + 3], s[cur + 4]];
    assert(v@ =~= s@.subrange(cur + 1, cur + 5));
    Ok(v)
}

/// The packed `GET_REMOTE_DATA` reply holds the peer address (4 bytes) and
/// port (2 bytes, network order), each with its length byte.
pub open spec fn remote_ok(s: Seq<u8>) -> bool {
    &&& s.len() >= 8
    &&& s[0] == 4
    &&& s[5] == 2
}

/// Take the peer address and port out of the packed `GET_REMOTE_DATA`
/// reply; anything else is [`Error::Framing`].
pub fn remote_from_wire<E>(packed: &[u8]) -> (r: Result<([u8; 4], u16), Error<E>>)
    ensures
        match r {
            Ok((ip, port)) => remote_ok(packed@) && ip@ == packed@.subrange(1, 5) && port == (
            packed@[6] * 256 + packed@[7]) as u16,
            Err(e) => !remote_ok(packed@) && e == Error::<E>::Framing,
        },
{
    if packed.len() < 8 {
        return Err(Error::Framing);
    }
    if packed[0] != 4 {
        return Err(Error::Framing);
    }
    let ip = [packed[1], packed[2], packed[3], packed[4]];
    if packed[5] != 2 {
        return Err(Error::Framing);
    }
    let port = (packed[6] as u16) * 256 + packed[7] as u16;
    assert(ip@ =~= packed@.subrange(1, 5));
    Ok((ip, port))
}

} // verus!
