//! The driver handle ([`Nina`]), socket handles and the IPv4 configuration.
use vstd::prelude::*;

verus! {

/// Type-safe handle to a chip-side socket slot.
///
/// The wrapper keeps a socket index from being mixed up with other bytes;
/// it does not close the socket when dropped.
#[derive(Debug, Clone, Copy, PartialEq, Eq, Structural)]
pub struct Socket(pub(crate) u8);

impl Socket {
    /// The chip-side socket index.
    pub closed spec fn id(self) -> u8 {
        self.0
    }

    /// The socket with chip-side index `b`.
    pub closed spec fn with_id(b: u8) -> Socket {
        Socket(b)
    }

    /// A socket is its index.
    pub proof fn lemma_id(b: u8)
        ensures
            Socket::with_id(b).id() == b,
    {
    }

    /// Raw chip-side socket index. Mostly for diagnostics.
    pub fn raw(&self) -> (r: u8)
        ensures
            r == self.id(),
    {
        self.0
    }

    /// The socket with chip-side index `b` (as reported by the chip).
    pub(crate) fn from_raw(b: u8) -> (s: Socket)
        ensures
            s == Socket::with_id(b),
    {
        Socket(b)
    }

    /// The index in decimal, as `Display` shows it.
    pub fn to_string(&self) -> (s: String)
        ensures
            s@ == decimal(self.id() as nat),
    {
        let v = self.0;
        let mut s = String::new();
        if v >= 100 {
            s.append(digit_str(v / 100));
        }
        if v >= 10 {
            s.append(digit_str((v / 10) % 10));
        }
        s.append(digit_str(v % 10));
        proof {
            let n = v as nat;
            if n >= 100 {
                assert(decimal(n / 10) == decimal(n / 100).push(digit_char(((n / 10) % 10) as nat)));
            }
            if n >= 10 {
                assert(decimal(n) == decimal(n / 10).push(digit_char(n % 10)));
            }
        }
        s
    }
}

/// The character of decimal digit `d`.
pub open spec fn digit_char(d: nat) -> char {
    (48 + d) as char
}

/// The decimal digits of `n`, most significant first, without leading zeros.
pub open spec fn decimal(n: nat) -> Seq<char>
    decreases n,
{
    if n < 10 {
        seq![digit_char(n)]
    } else {
        decimal(n / 10).push(digit_char(n % 10))
    }
}

/// The one-character string of digit `d`.
fn digit_str(d: u8) -> (s: &'static str)
    requires
        d < 10,
    ensures
        s@ == seq![digit_char(d as nat)],
{
    match d {
        0 => {
            proof { reveal_strlit("0"); }
            "0"
        },
        1 => {
            proof { reveal_strlit("1"); }
            "1"
        },
        2 => {
            proof { reveal_strlit("2"); }
            "2"
        },
        3 => {
            proof { reveal_strlit("3"); }
            "3"
        },
        4 => {
            proof { reveal_strlit("4"); }
            "4"
        },
        5 => {
            proof { reveal_strlit("5"); }
            "5"
        },
        6 => {
            proof { reveal_strlit("6"); }
            "6"
        },
        7 => {
            proof { reveal_strlit("7"); }
            "7"
        },
        8 => {
            proof { reveal_strlit("8"); }
            "8"
        },
        _ => {
            proof { reveal_strlit("9"); }
            "9"
        },
    }
}

/// IPv4 configuration of the STA interface.
#[derive(Debug, Clone, Copy, PartialEq, Eq)]
pub struct IpConfig {
    /// Address assigned to the STA interface.
    pub ip: [u8; 4],
    /// Subnet mask.
    pub subnet: [u8; 4],
    /// Default gateway.
    pub gateway: [u8; 4],
}

impl Default for IpConfig {
    fn default() -> (c: Self)
        ensures
            c.ip@ == seq![0u8, 0, 0, 0],
            c.subnet@ == seq![0u8, 0, 0, 0],
            c.gateway@ == seq![0u8, 0, 0, 0],
    {
        let c = IpConfig { ip: [0u8; 4], subnet: [0u8; 4], gateway: [0u8; 4] };
        assert(c.ip@ =~= seq![0u8, 0, 0, 0]);
        c
    }
}

/// WiFiNINA driver bound to an SPI bus and its control pins: chip select,
/// the ACK/busy line, the reset line and the boot-mode pin (`GPIO0`).
pub struct Nina<Bus, Cs, Ack, Rst, Boot> {
    bus: Bus,
    cs: Cs,
    ack: Ack,
    rst: Rst,
    boot: Boot,
}

impl<Bus, Cs, Ack, Rst, Boot> Nina<Bus, Cs, Ack, Rst, Boot> {
    /// The SPI bus.
    pub closed spec fn bus(&self) -> Bus {
        self.bus
    }

    /// The chip-select pin.
    pub closed spec fn cs(&self) -> Cs {
        self.cs
    }

    /// The ACK/busy input.
    pub closed spec fn ack(&self) -> Ack {
        self.ack
    }

    /// The reset pin.
    pub closed spec fn rst(&self) -> Rst {
        self.rst
    }

    /// The boot-mode pin.
    pub closed spec fn boot(&self) -> Boot {
        self.boot
    }

    /// Bind a configured SPI bus and the four control pins. Touches neither.
    pub fn new(bus: Bus, cs: Cs, ack: Ack, rst: Rst, boot: Boot) -> (n: Self)
        ensures
            n.bus() == bus,
            n.cs() == cs,
            n.ack() == ack,
            n.rst() == rst,
            n.boot() == boot,
    {
        Nina { bus, cs, ack, rst, boot }
    }

    /// The SPI bus, to clock frames through.
    pub fn bus_mut(&mut self) -> (r: &mut Bus)
        ensures
            *r == old(self).bus(),
            final(self).bus() == *final(r),
            final(self).cs() == old(self).cs(),
            final(self).ack() == old(self).ack(),
            final(self).rst() == old(self).rst(),
            final(self).boot() == old(self).boot(),
    {
        &mut self.bus
    }

    /// The chip-select pin.
    pub fn cs_mut(&mut self) -> (r: &mut Cs)
        ensures
            *r == old(self).cs(),
            final(self).cs() == *final(r),
            final(self).bus() == old(self).bus(),
            final(self).ack() == old(self).ack(),
            final(self).rst() == old(self).rst(),
            final(self).boot() == old(self).boot(),
    {
        &mut self.cs
    }

    /// The ACK/busy input.
    pub fn ack_mut(&mut self) -> (r: &mut Ack)
        ensures
            *r == old(self).ack(),
            final(self).ack() == *final(r),
            final(self).bus() == old(self).bus(),
            final(self).cs() == old(self).cs(),
            final(self).rst() == old(self).rst(),
            final(self).boot() == old(self).boot(),
    {
        &mut self.ack
    }

    /// The reset pin.
    pub fn rst_mut(&mut self) -> (r: &mut Rst)
        ensures
            *r == old(self).rst(),
            final(self).rst() == *final(r),
            final(self).bus() == old(self).bus(),
            final(self).cs() == old(self).cs(),
            final(self).ack() == old(self).ack(),
            final(self).boot() == old(self).boot(),
    {
        &mut self.rst
    }

    /// The boot-mode pin.
    pub fn boot_mut(&mut self) -> (r: &mut Boot)
        ensures
            *r == old(self).boot(),
            final(self).boot() == *final(r),
            final(self).bus() == old(self).bus(),
            final(self).cs() == old(self).cs(),
            final(self).ack() == old(self).ack(),
            final(self).rst() == old(self).rst(),
    {
        &mut self.boot
    }
}

} // verus!
