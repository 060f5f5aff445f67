//! Wire-protocol constants and the protocol-level enums.
//!
//! Frame layout of a command sent by the host:
//!
//! ```text
//! | START_CMD | C/R+CMD | numParam | paramLen | param | ... | END_CMD | pad |
//! |  8 bit    | 8 bit   |  8 bit   |  8/16    | n     | ... |  8 bit  |     |
//! ```
//!
//! C/R is the top bit of the command byte: `0` for a command from the host,
//! `1` (`REPLY_FLAG`) for a reply from the chip. Commands whose opcode has
//! `DATA_FLAG` set encode each parameter length as a 16-bit big-endian word.
use vstd::prelude::*;

verus! {

/// First byte of every frame.
pub const START_CMD: u8 = 0xE0;
/// Last byte of every frame (before padding).
pub const END_CMD: u8 = 0xEE;
/// Byte the chip sends instead of `START_CMD` to report a failed command.
pub const ERR_CMD: u8 = 0xEF;
/// Top bit of the command byte, set in replies.
pub const REPLY_FLAG: u8 = 0x80;
/// Opcode bit of the commands whose parameter lengths are 16 bits wide.
pub const DATA_FLAG: u8 = 0x40;
/// Filler byte: clocked out while reading and used to pad frames.
pub const DUMMY: u8 = 0xFF;

/// Number of bytes polled for `START_CMD` before a reply times out.
pub const START_TIMEOUT_ITERS: u32 = 1000;
/// Time (ms) the host waits between asserting CS and seeing ACK go high.
pub const ACK_AFTER_CS_MS: u64 = 5;
/// Width (ms) of the reset pulse.
pub const RESET_LOW_MS: u64 = 100;
/// Time (ms) granted to the firmware to boot after reset.
pub const RESET_BOOT_MS: u64 = 2_500;
/// SPI clock frequency.
pub const SPI_FREQ_HZ: u32 = 8_000_000;

pub const CMD_SET_NET: u8 = 0x10;
pub const CMD_SET_PASSPHRASE: u8 = 0x11;
pub const CMD_SET_DNS_CONFIG: u8 = 0x15;
pub const CMD_SET_HOSTNAME: u8 = 0x16;
pub const CMD_SET_POWER_MODE: u8 = 0x17;
pub const CMD_SET_AP_NET: u8 = 0x18;
pub const CMD_SET_AP_PASSPHRASE: u8 = 0x19;
pub const CMD_GET_TEMPERATURE: u8 = 0x1B;
pub const CMD_GET_CURR_BSSID: u8 = 0x24;
pub const CMD_GET_CURR_RSSI: u8 = 0x25;
pub const CMD_GET_CURR_ENCT: u8 = 0x26;
pub const CMD_GET_STATE_TCP: u8 = 0x29;
pub const CMD_GET_REASON_CODE: u8 = 0x1F;
pub const CMD_GET_IDX_BSSID: u8 = 0x3C;
pub const CMD_GET_DIGITAL_READ: u8 = 0x53;
pub const CMD_GET_ANALOG_READ: u8 = 0x54;
pub const CMD_GET_CONN_STATUS: u8 = 0x20;
pub const CMD_GET_IPADDR: u8 = 0x21;
pub const CMD_GET_MAC_ADDR: u8 = 0x22;
pub const CMD_GET_CURR_SSID: u8 = 0x23;
pub const CMD_START_SERVER_TCP: u8 = 0x28;
pub const CMD_DATA_SENT_TCP: u8 = 0x2A;
pub const CMD_AVAIL_DATA_TCP: u8 = 0x2B;
pub const CMD_START_CLIENT_TCP: u8 = 0x2D;
pub const CMD_STOP_CLIENT_TCP: u8 = 0x2E;
pub const CMD_GET_CLIENT_STATE_TCP: u8 = 0x2F;
pub const CMD_DISCONNECT: u8 = 0x30;
pub const CMD_REQ_HOST_BY_NAME: u8 = 0x34;
pub const CMD_GET_HOST_BY_NAME: u8 = 0x35;
pub const CMD_GET_IDX_RSSI: u8 = 0x32;
pub const CMD_GET_IDX_ENCT: u8 = 0x33;
pub const CMD_SEND_UDP_DATA: u8 = 0x39;
pub const CMD_GET_REMOTE_DATA: u8 = 0x3A;
pub const CMD_GET_IDX_CHANNEL: u8 = 0x3D;
pub const CMD_GET_SOCKET: u8 = 0x3F;
pub const CMD_SEND_DATA_TCP: u8 = 0x44;
pub const CMD_GET_DATABUF_TCP: u8 = 0x45;
pub const CMD_INSERT_DATABUF: u8 = 0x46;
pub const CMD_PING: u8 = 0x3E;
pub const CMD_SET_PIN_MODE: u8 = 0x50;
pub const CMD_SET_DIGITAL_WRITE: u8 = 0x51;
pub const CMD_SET_ANALOG_WRITE: u8 = 0x52;
pub const CMD_SCAN_NETWORKS: u8 = 0x27;
pub const CMD_START_SCAN_NETWORKS: u8 = 0x36;
pub const CMD_GET_FW_VERSION: u8 = 0x37;

/// Firmware `pinMode` value for a plain input.
pub const PIN_INPUT: u8 = 0;
/// Firmware `pinMode` value for an output.
pub const PIN_OUTPUT: u8 = 1;
/// Firmware `pinMode` value for an input with pull-up.
pub const PIN_INPUT_PULLUP: u8 = 2;

/// NINA GPIO for the red channel of the onboard RGB LED (active-low).
pub const LED_R: u8 = 27;
/// NINA GPIO for the green channel of the onboard RGB LED (active-low).
pub const LED_G: u8 = 25;
/// NINA GPIO for the blue channel of the onboard RGB LED (active-low).
pub const LED_B: u8 = 26;

/// Transport mode passed to `START_CLIENT_TCP`: plain TCP.
pub const TCP_MODE: u8 = 0;
/// Transport mode: UDP.
pub const UDP_MODE: u8 = 1;
/// Transport mode: TLS terminated on the chip.
pub const TLS_MODE: u8 = 2;

/// Pin direction for a NINA-side GPIO; mirrors Arduino's
/// `INPUT` / `OUTPUT` / `INPUT_PULLUP`.
#[derive(Debug, Clone, Copy, PartialEq, Eq, Structural)]
pub enum PinMode {
    /// High-impedance input.
    Input,
    /// Push-pull output.
    Output,
    /// Input with the chip's internal pull-up enabled.
    InputPullup,
}

impl PinMode {
    /// The firmware's `pinMode` value of this mode.
    pub open spec fn code(self) -> u8 {
        match self {
            PinMode::Input => PIN_INPUT,
            PinMode::Output => PIN_OUTPUT,
            PinMode::InputPullup => PIN_INPUT_PULLUP,
        }
    }

    /// The byte sent on the wire for this mode.
    pub fn to_u8(self) -> (r: u8)
        ensures
            r == self.code(),
    {
        match self {
            PinMode::Input => PIN_INPUT,
            PinMode::Output => PIN_OUTPUT,
            PinMode::InputPullup => PIN_INPUT_PULLUP,
        }
    }
}

/// TCP socket state (`enum tcp_state` in lwip).
#[derive(Debug, Clone, Copy, PartialEq, Eq, Structural)]
pub enum SockState {
    Closed,
    Listen,
    SynSent,
    SynRcvd,
    Established,
    FinWait1,
    FinWait2,
    CloseWait,
    Closing,
    LastAck,
    TimeWait,
    Unknown,
}

impl SockState {
    /// The lwip code of this state; `Unknown` is `0xFF`.
    pub open spec fn code(self) -> u8 {
        match self {
            SockState::Closed => 0,
            SockState::Listen => 1,
            SockState::SynSent => 2,
            SockState::SynRcvd => 3,
            SockState::Established => 4,
            SockState::FinWait1 => 5,
            SockState::FinWait2 => 6,
            SockState::CloseWait => 7,
            SockState::Closing => 8,
            SockState::LastAck => 9,
            SockState::TimeWait => 10,
            SockState::Unknown => 0xFF,
        }
    }

    /// The state whose code is `b`; every other byte reads as `Unknown`.
    pub open spec fn from_code(b: u8) -> SockState {
        if b == 0 {
            SockState::Closed
        } else if b == 1 {
            SockState::Listen
        } else if b == 2 {
            SockState::SynSent
        } else if b == 3 {
            SockState::SynRcvd
        } else if b == 4 {
            SockState::Established
        } else if b == 5 {
            SockState::FinWait1
        } else if b == 6 {
            SockState::FinWait2
        } else if b == 7 {
            SockState::CloseWait
        } else if b == 8 {
            SockState::Closing
        } else if b == 9 {
            SockState::LastAck
        } else if b == 10 {
            SockState::TimeWait
        } else {
            SockState::Unknown
        }
    }

    /// Decode the state byte the chip reports, by lwip number.
    pub fn from_u8(b: u8) -> (r: Self)
        ensures
            r == Self::from_code(b),
            b == 0 ==> r == SockState::Closed,
            b == 1 ==> r == SockState::Listen,
            b == 2 ==> r == SockState::SynSent,
            b == 3 ==> r == SockState::SynRcvd,
            b == 4 ==> r == SockState::Established,
            b == 5 ==> r == SockState::FinWait1,
            b == 6 ==> r == SockState::FinWait2,
            b == 7 ==> r == SockState::CloseWait,
            b == 8 ==> r == SockState::Closing,
            b == 9 ==> r == SockState::LastAck,
            b == 10 ==> r == SockState::TimeWait,
            b > 10 ==> r == SockState::Unknown,
    {
        match b {
            0 => SockState::Closed,
            1 => SockState::Listen,
            2 => SockState::SynSent,
            3 => SockState::SynRcvd,
            4 => SockState::Established,
            5 => SockState::FinWait1,
            6 => SockState::FinWait2,
            7 => SockState::CloseWait,
            8 => SockState::Closing,
            9 => SockState::LastAck,
            10 => SockState::TimeWait,
            _ => SockState::Unknown,
        }
    }

    /// The lwip number of this state (`0xFF` for `Unknown`).
    pub fn to_u8(self) -> (r: u8)
        ensures
            r == self.code(),
            self == SockState::Closed ==> r == 0,
            self == SockState::Listen ==> r == 1,
            self == SockState::SynSent ==> r == 2,
            self == SockState::SynRcvd ==> r == 3,
            self == SockState::Established ==> r == 4,
            self == SockState::FinWait1 ==> r == 5,
            self == SockState::FinWait2 ==> r == 6,
            self == SockState::CloseWait ==> r == 7,
            self == SockState::Closing ==> r == 8,
            self == SockState::LastAck ==> r == 9,
            self == SockState::TimeWait ==> r == 10,
            self == SockState::Unknown ==> r == 0xFF,
    {
        match self {
            SockState::Closed => 0,
            SockState::Listen => 1,
            SockState::SynSent => 2,
            SockState::SynRcvd => 3,
            SockState::Established => 4,
            SockState::FinWait1 => 5,
            SockState::FinWait2 => 6,
            SockState::CloseWait => 7,
            SockState::Closing => 8,
            SockState::LastAck => 9,
            SockState::TimeWait => 10,
            SockState::Unknown => 0xFF,
        }
    }
}

/// Decoding the code of a state gives the state back.
pub proof fn lemma_sock_state_roundtrip(s: SockState)
    ensures
        SockState::from_code(s.code()) == s,
{
}

/// A byte decodes to a state whose code is that byte exactly when the byte
/// is one of the lwip codes (`0..=10`) or `0xFF`.
pub proof fn lemma_sock_state_code_roundtrip(b: u8)
    ensures
        (SockState::from_code(b).code() == b) <==> (b <= 10 || b == 0xFF),
{
}

/// `enc_type` from Arduino's `WiFi.h`.
#[derive(Debug, Clone, Copy, PartialEq, Eq, Structural)]
pub enum EncType {
    Wep,
    Tkip,
    Ccmp,
    /// No encryption (`ENC_TYPE_NONE`).
    Unencrypted,
    Auto,
    Other,
}

impl EncType {
    /// The firmware code of this encryption type.
    pub open spec fn code(self) -> u8 {
        match self {
            EncType::Wep => 5,
            EncType::Tkip => 2,
            EncType::Ccmp => 4,
            EncType::Unencrypted => 7,
            EncType::Auto => 8,
            EncType::Other => 0,
        }
    }

    /// The encryption type whose code is `b`; every other byte reads as `Other`.
    pub open spec fn from_code(b: u8) -> EncType {
        if b == 5 {
            EncType::Wep
        } else if b == 2 {
            EncType::Tkip
        } else if b == 4 {
            EncType::Ccmp
        } else if b == 7 {
            EncType::Unencrypted
        } else if b == 8 {
            EncType::Auto
        } else {
            EncType::Other
        }
    }

    /// Decode the encryption byte the chip reports (Arduino `enc_type`).
    pub fn from_u8(b: u8) -> (r: Self)
        ensures
            r == Self::from_code(b),
            b == 5 ==> r == EncType::Wep,
            b == 2 ==> r == EncType::Tkip,
            b == 4 ==> r == EncType::Ccmp,
            b == 7 ==> r == EncType::Unencrypted,
            b == 8 ==> r == EncType::Auto,
            (b != 2 && b != 4 && b != 5 && b != 7 && b != 8) ==> r == EncType::Other,
    {
        match b {
            5 => EncType::Wep,
            2 => EncType::Tkip,
            4 => EncType::Ccmp,
            7 => EncType::Unencrypted,
            8 => EncType::Auto,
            _ => EncType::Other,
        }
    }

    /// The Arduino `enc_type` value of this encryption type.
    pub fn to_u8(self) -> (r: u8)
        ensures
            r == self.code(),
            self == EncType::Wep ==> r == 5,
            self == EncType::Tkip ==> r == 2,
            self == EncType::Ccmp ==> r == 4,
            self == EncType::Unencrypted ==> r == 7,
            self == EncType::Auto ==> r == 8,
            self == EncType::Other ==> r == 0,
    {
        match self {
            EncType::Wep => 5,
            EncType::Tkip => 2,
            EncType::Ccmp => 4,
            EncType::Unencrypted => 7,
            EncType::Auto => 8,
            EncType::Other => 0,
        }
    }
}

/// Decoding the code of an encryption type gives it back.
pub proof fn lemma_enc_type_roundtrip(e: EncType)
    ensures
        EncType::from_code(e.code()) == e,
{
}

/// A byte decodes to an encryption type whose code is that byte exactly when
/// it is one of the known codes.
pub proof fn lemma_enc_type_code_roundtrip(b: u8)
    ensures
        (EncType::from_code(b).code() == b) <==> (b == 0 || b == 2 || b == 4 || b == 5 || b == 7
            || b == 8),
{
}

/// `WL_STATUS` from Arduino's `WiFi.h`.
#[derive(Debug, Clone, Copy, PartialEq, Eq, Structural)]
pub enum WlStatus {
    NoShield,
    Idle,
    NoSsidAvail,
    ScanCompleted,
    Connected,
    ConnectFailed,
    ConnectionLost,
    Disconnected,
    ApListening,
    ApConnected,
    ApFailed,
}

impl WlStatus {
    /// The firmware code of this status; `NoShield` is `255`.
    pub open spec fn code(self) -> u8 {
        match self {
            WlStatus::NoShield => 255,
            WlStatus::Idle => 0,
            WlStatus::NoSsidAvail => 1,
            WlStatus::ScanCompleted => 2,
            WlStatus::Connected => 3,
            WlStatus::ConnectFailed => 4,
            WlStatus::ConnectionLost => 5,
            WlStatus::Disconnected => 6,
            WlStatus::ApListening => 7,
            WlStatus::ApConnected => 8,
            WlStatus::ApFailed => 9,
        }
    }

    /// The status whose code is `b`; every other byte reads as `NoShield`.
    pub open spec fn from_code(b: u8) -> WlStatus {
        if b == 0 {
            WlStatus::Idle
        } else if b == 1 {
            WlStatus::NoSsidAvail
        } else if b == 2 {
            WlStatus::ScanCompleted
        } else if b == 3 {
            WlStatus::Connected
        } else if b == 4 {
            WlStatus::ConnectFailed
        } else if b == 5 {
            WlStatus::ConnectionLost
        } else if b == 6 {
            WlStatus::Disconnected
        } else if b == 7 {
            WlStatus::ApListening
        } else if b == 8 {
            WlStatus::ApConnected
        } else if b == 9 {
            WlStatus::ApFailed
        } else {
            WlStatus::NoShield
        }
    }

    /// Decode the status byte the chip reports (Arduino `WL_STATUS`).
    pub fn from_u8(b: u8) -> (r: Self)
        ensures
            r == Self::from_code(b),
            b == 0 ==> r == WlStatus::Idle,
            b == 1 ==> r == WlStatus::NoSsidAvail,
            b == 2 ==> r == WlStatus::ScanCompleted,
            b == 3 ==> r == WlStatus::Connected,
            b == 4 ==> r == WlStatus::ConnectFailed,
            b == 5 ==> r == WlStatus::ConnectionLost,
            b == 6 ==> r == WlStatus::Disconnected,
            b == 7 ==> r == WlStatus::ApListening,
            b == 8 ==> r == WlStatus::ApConnected,
            b == 9 ==> r == WlStatus::ApFailed,
            b > 9 ==> r == WlStatus::NoShield,
    {
        match b {
            0 => WlStatus::Idle,
            1 => WlStatus::NoSsidAvail,
            2 => WlStatus::ScanCompleted,
            3 => WlStatus::Connected,
            4 => WlStatus::ConnectFailed,
            5 => WlStatus::ConnectionLost,
            6 => WlStatus::Disconnected,
            7 => WlStatus::ApListening,
            8 => WlStatus::ApConnected,
            9 => WlStatus::ApFailed,
            _ => WlStatus::NoShield,
        }
    }

    /// The Arduino `WL_STATUS` value of this status.
    pub fn to_u8(self) -> (r: u8)
        ensures
            r == self.code(),
            self == WlStatus::NoShield ==> r == 255,
            self == WlStatus::Idle ==> r == 0,
            self == WlStatus::NoSsidAvail ==> r == 1,
            self == WlStatus::ScanCompleted ==> r == 2,
            self == WlStatus::Connected ==> r == 3,
            self == WlStatus::ConnectFailed ==> r == 4,
            self == WlStatus::ConnectionLost ==> r == 5,
            self == WlStatus::Disconnected ==> r == 6,
            self == WlStatus::ApListening ==> r == 7,
            self == WlStatus::ApConnected ==> r == 8,
            self == WlStatus::ApFailed ==> r == 9,
    {
        match self {
            WlStatus::NoShield => 255,
            WlStatus::Idle => 0,
            WlStatus::NoSsidAvail => 1,
            WlStatus::ScanCompleted => 2,
            WlStatus::Connected => 3,
            WlStatus::ConnectFailed => 4,
            WlStatus::ConnectionLost => 5,
            WlStatus::Disconnected => 6,
            WlStatus::ApListening => 7,
            WlStatus::ApConnected => 8,
            WlStatus::ApFailed => 9,
        }
    }
}

/// Decoding the code of a status gives the status back.
pub proof fn lemma_wl_status_roundtrip(s: WlStatus)
    ensures
        WlStatus::from_code(s.code()) == s,
{
}

/// A byte decodes to a status whose code is that byte exactly when it is one
/// of the codes `0..=9` or `255`.
pub proof fn lemma_wl_status_code_roundtrip(b: u8)
    ensures
        (WlStatus::from_code(b).code() == b) <==> (b <= 9 || b == 255),
{
}

/// The socket-state byte follows the lwip numbering: `0..=10` are Closed,
/// Listen, SynSent, SynRcvd, Established, FinWait1, FinWait2, CloseWait,
/// Closing, LastAck, TimeWait, in that order; every other byte is Unknown.
/// In particular the passive-close state CloseWait is 7 and FinWait2 is 6.
pub proof fn lemma_sock_state_lwip_table(b: u8)
    ensures
        b == 0 <==> SockState::from_code(b) == SockState::Closed,
        b == 1 <==> SockState::from_code(b) == SockState::Listen,
        b == 2 <==> SockState::from_code(b) == SockState::SynSent,
        b == 3 <==> SockState::from_code(b) == SockState::SynRcvd,
        b == 4 <==> SockState::from_code(b) == SockState::Established,
        b == 5 <==> SockState::from_code(b) == SockState::FinWait1,
        b == 6 <==> SockState::from_code(b) == SockState::FinWait2,
        b == 7 <==> SockState::from_code(b) == SockState::CloseWait,
        b == 8 <==> SockState::from_code(b) == SockState::Closing,
        b == 9 <==> SockState::from_code(b) == SockState::LastAck,
        b == 10 <==> SockState::from_code(b) == SockState::TimeWait,
        b > 10 <==> SockState::from_code(b) == SockState::Unknown,
        SockState::CloseWait.code() == 7,
        SockState::FinWait2.code() == 6,
        SockState::Unknown.code() == 0xFF,
{
}

/// The encryption byte follows Arduino's `enc_type`: 5 is WEP, 2 TKIP,
/// 4 CCMP, 7 none, 8 auto; every other byte is Other.
pub proof fn lemma_enc_type_arduino_table(b: u8)
    ensures
        b == 5 <==> EncType::from_code(b) == EncType::Wep,
        b == 2 <==> EncType::from_code(b) == EncType::Tkip,
        b == 4 <==> EncType::from_code(b) == EncType::Ccmp,
        b == 7 <==> EncType::from_code(b) == EncType::Unencrypted,
        b == 8 <==> EncType::from_code(b) == EncType::Auto,
        (b != 2 && b != 4 && b != 5 && b != 7 && b != 8) <==> EncType::from_code(b)
            == EncType::Other,
        EncType::Wep.code() == 5,
        EncType::Auto.code() == 8,
{
}

/// The status byte follows Arduino's `WL_STATUS`: 0 Idle, 1 NoSsidAvail,
/// 2 ScanCompleted, 3 Connected, 4 ConnectFailed, 5 ConnectionLost,
/// 6 Disconnected, 7 ApListening, 8 ApConnected, 9 ApFailed; every other
/// byte is NoShield.
pub proof fn lemma_wl_status_arduino_table(b: u8)
    ensures
        b == 0 <==> WlStatus::from_code(b) == WlStatus::Idle,
        b == 1 <==> WlStatus::from_code(b) == WlStatus::NoSsidAvail,
        b == 2 <==> WlStatus::from_code(b) == WlStatus::ScanCompleted,
        b == 3 <==> WlStatus::from_code(b) == WlStatus::Connected,
        b == 4 <==> WlStatus::from_code(b) == WlStatus::ConnectFailed,
        b == 5 <==> WlStatus::from_code(b) == WlStatus::ConnectionLost,
        b == 6 <==> WlStatus::from_code(b) == WlStatus::Disconnected,
        b == 7 <==> WlStatus::from_code(b) == WlStatus::ApListening,
        b == 8 <==> WlStatus::from_code(b) == WlStatus::ApConnected,
        b == 9 <==> WlStatus::from_code(b) == WlStatus::ApFailed,
        b > 9 <==> WlStatus::from_code(b) == WlStatus::NoShield,
        WlStatus::Disconnected.code() == 6,
        WlStatus::ApListening.code() == 7,
{
}

/// One command parameter as it appears on the wire: with an 8-bit length
/// prefix, or with a 16-bit big-endian one.
#[derive(Clone, Copy)]
pub enum Param<'a> {
    /// 8-bit length prefix.
    Short(&'a [u8]),
    /// 16-bit big-endian length prefix.
    Long(&'a [u8]),
}

} // verus!
