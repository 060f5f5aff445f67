//! Wi-Fi scan results.
//!
//! A completed scan is held as the packed `[len_0, ssid_0, len_1, ssid_1,
//! ...]` bytes of the `SCAN_NETWORKS` reply and the network count.
use vstd::prelude::*;

use crate::frame::{short_lengths, short_params};
use crate::proto::EncType;

verus! {

/// Full information on one scan result.
#[derive(Debug, Clone, Copy, PartialEq, Eq)]
pub struct NetworkInfo {
    /// RSSI in dBm.
    pub rssi: i8,
    /// Encryption type.
    pub enct: EncType,
    /// 802.11 channel.
    pub channel: u8,
    /// BSSID (MAC of the AP), canonical order.
    pub bssid: [u8; 6],
}

/// The SSIDs held by packed scan bytes `buf` for (at most) `n` networks:
/// entries are taken in order while the count lasts, and the walk stops at
/// the end of the bytes or at an entry that runs past them.
pub open spec fn ssids(buf: Seq<u8>, n: nat) -> Seq<Seq<u8>>
    decreases n,
{
    if n == 0 || buf.len() == 0 || 1 + buf[0] > buf.len() {
        Seq::empty()
    } else {
        seq![buf.subrange(1, 1 + buf[0])] + ssids(buf.skip(1 + buf[0]), (n - 1) as nat)
    }
}

/// Borrowed view over a completed scan.
pub struct Scan<'a> {
    buf: &'a [u8],
    n: u8,
}

impl<'a> Scan<'a> {
    /// The packed scan bytes.
    pub closed spec fn bytes(&self) -> Seq<u8> {
        self.buf@
    }

    /// The network count the chip reported.
    pub closed spec fn count(&self) -> u8 {
        self.n
    }

    /// A scan over packed bytes `buf` reporting `n` networks.
    pub fn new(buf: &'a [u8], n: u8) -> (s: Self)
        ensures
            s.bytes() == buf@,
            s.count() == n,
    {
        Scan { buf, n }
    }

    /// Number of networks discovered.
    pub fn len(&self) -> (r: usize)
        ensures
            r == self.count(),
    {
        self.n as usize
    }

    /// `true` if the scan returned no networks.
    pub fn is_empty(&self) -> (r: bool)
        ensures
            r == (self.count() == 0),
    {
        self.n == 0
    }

    /// Iterate the SSID bytes of each discovered network.
    pub fn iter(&self) -> (it: ScanIter<'a>)
        ensures
            it.remaining() == ssids(self.bytes(), self.count() as nat),
    {
        ScanIter { buf: self.buf, rem: self.n }
    }
}

/// Iterator over the SSIDs of a scan. Yields raw bytes: SSIDs need not be
/// UTF-8.
pub struct ScanIter<'a> {
    buf: &'a [u8],
    rem: u8,
}

impl<'a> ScanIter<'a> {
    /// The SSIDs still to come.
    pub closed spec fn remaining(&self) -> Seq<Seq<u8>> {
        ssids(self.buf@, self.rem as nat)
    }

    /// The next SSID, or `None` when the scan is exhausted.
    pub fn next(&mut self) -> (r: Option<&'a [u8]>)
        ensures
            match r {
                None => old(self).remaining().len() == 0 && final(self).remaining().len() == 0,
                Some(ssid) => old(self).remaining().len() > 0 && ssid@ == old(self).remaining()[0]
                    && final(self).remaining() == old(self).remaining().drop_first(),
            },
    {
        if self.rem == 0 || self.buf.len() == 0 {
            return None;
        }
        let len = self.buf[0] as usize;
        if 1 + len > self.buf.len() {
            return None;
        }
        let ghost old_rem = self.remaining();
        let ssid = vstd::slice::slice_subrange(self.buf, 1, 1 + len);
        self.buf = vstd::slice::slice_subrange(self.buf, 1 + len, self.buf.len());
        self.rem = self.rem - 1;
        proof {
            assert(self.buf@ =~= old(self).buf@.skip(1 + len));
            assert(old_rem =~= seq![ssid@] + self.remaining());
            assert(old_rem.drop_first() =~= self.remaining());
        }
        Some(ssid)
    }
}

/// The SSIDs of a scan are at most as many as the networks it reports, and
/// each lies within the packed bytes.
pub proof fn lemma_ssids_bounded(buf: Seq<u8>, n: nat)
    ensures
        ssids(buf, n).len() <= n,
        forall|i: int| 0 <= i < ssids(buf, n).len() ==> #[trigger] ssids(buf, n)[i].len() < buf.len(),
    decreases n,
{
    if !(n == 0 || buf.len() == 0 || 1 + buf[0] > buf.len()) {
        let rest = buf.skip(1 + buf[0]);
        lemma_ssids_bounded(rest, (n - 1) as nat);
        let l = ssids(buf, n);
        assert forall|i: int| 0 <= i < l.len() implies #[trigger] l[i].len() < buf.len() by {
            if i > 0 {
                assert(l[i] == ssids(rest, (n - 1) as nat)[i - 1]);
            }
        }
    }
}

/// Iterating a scan whose bytes are SSIDs packed as the chip sends them
/// (each with its length byte) yields exactly those SSIDs, in order.
pub proof fn lemma_ssids_of_packed(list: Seq<Seq<u8>>)
    requires
        short_lengths(list),
    ensures
        ssids(short_params(list), list.len()) == list,
    decreases list.len(),
{
    if list.len() > 0 {
        let buf = short_params(list);
        let first = list[0];
        let rest = list.drop_first();
        assert(first.len() <= 255);
        assert(buf[0] == first.len());
        assert forall|i: int| 0 <= i < rest.len() implies #[trigger] rest[i].len() <= 255 by {
            assert(rest[i] == list[i + 1]);
        }
        assert(buf.skip(1 + first.len() as int) =~= short_params(rest));
        assert(buf.subrange(1, 1 + first.len() as int) =~= first);
        lemma_ssids_of_packed(rest);
        assert(ssids(buf, list.len()) =~= seq![first] + rest);
        assert(seq![first] + rest =~= list);
    } else {
        assert(short_params(list) == Seq::<u8>::empty());
        assert(ssids(short_params(list), 0) =~= list);
    }
}

} // verus!
