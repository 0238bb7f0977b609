use vstd::prelude::*;

verus! {

/// The scan technique used for every probe of one scan.
#[derive(Debug, Clone, Copy, PartialEq, Eq, Structural)]
pub enum Mode {
    Udp,
    Tcp,
    Syn,
    Null,
    Fin,
    Xmas,
    Ack,
}

/// What a probe concluded about one port.
#[derive(Debug, Clone, Copy, PartialEq, Eq, Structural)]
pub enum PortStatus {
    Open,
    Closed,
    Filtered,
    Unfiltered,
    OpenFiltered,
}

pub const TCP_FIN: u8 = 0x01;
pub const TCP_SYN: u8 = 0x02;
pub const TCP_RST: u8 = 0x04;
pub const TCP_PSH: u8 = 0x08;
pub const TCP_ACK: u8 = 0x10;
pub const TCP_URG: u8 = 0x20;

/// Modes that forge frames at the link layer and wait for the listener.
pub open spec fn is_raw_mode(m: Mode) -> bool {
    m != Mode::Tcp
}

/// The status a raw probe settles on when no reply reaches it in time.
pub open spec fn silence_status(m: Mode) -> PortStatus {
    match m {
        Mode::Null | Mode::Fin | Mode::Xmas | Mode::Udp => PortStatus::OpenFiltered,
        _ => PortStatus::Filtered,
    }
}

/// The TCP flags byte a raw TCP mode puts in its probe.
pub open spec fn mode_flags(m: Mode) -> Option<u8> {
    match m {
        Mode::Syn => Some(TCP_SYN),
        Mode::Null => Some(0u8),
        Mode::Fin => Some(TCP_FIN),
        Mode::Xmas => Some((TCP_FIN | TCP_PSH | TCP_URG) as u8),
        Mode::Ack => Some(TCP_ACK),
        _ => None,
    }
}

/// The half-open range from which a raw probe draws its source port.
pub open spec fn source_port_window(m: Mode) -> (u16, u16) {
    if m == Mode::Udp {
        (49152u16, 65535u16)
    } else {
        (60000u16, 65000u16)
    }
}

pub open spec fn mode_text(m: Mode) -> Seq<char> {
    match m {
        Mode::Udp => "\x1b[96mUDP\x1b[0m"@,
        Mode::Tcp => "\x1b[34mTCP Connect\x1b[0m"@,
        Mode::Syn => "\x1b[32mSYN\x1b[0m"@,
        Mode::Null => "\x1b[35mNULL\x1b[0m"@,
        Mode::Fin => "\x1b[36mFIN\x1b[0m"@,
        Mode::Xmas => "\x1b[31mXMAS\x1b[0m"@,
        Mode::Ack => "\x1b[33mACK\x1b[0m"@,
    }
}

pub open spec fn status_text(s: PortStatus) -> Seq<char> {
    match s {
        PortStatus::Open => "\x1b[32mOpen\x1b[0m"@,
        PortStatus::Closed => "\x1b[31mClosed\x1b[0m"@,
        PortStatus::Filtered => "\x1b[33mFiltered\x1b[0m"@,
        PortStatus::Unfiltered => "\x1b[36mUnfiltered\x1b[0m"@,
        PortStatus::OpenFiltered => "\x1b[35mOpen/Filtered\x1b[0m"@,
    }
}

impl Mode {
    /// True for the modes that send forged frames rather than connecting.
    pub fn is_raw(&self) -> (r: bool)
        ensures
            r == is_raw_mode(*self),
    {
        !matches!(self, Mode::Tcp)
    }

    /// The status assigned when the probe's timeout passes without a reply.
    pub fn default_status(&self) -> (r: PortStatus)
        ensures
            r == silence_status(*self),
    {
        match self {
            Mode::Null | Mode::Fin | Mode::Xmas | Mode::Udp => PortStatus::OpenFiltered,
            _ => PortStatus::Filtered,
        }
    }

    /// The flags byte of the TCP probe, for the raw TCP modes.
    pub fn tcp_flags(&self) -> (r: Option<u8>)
        ensures
            r == mode_flags(*self),
    {
        match self {
            Mode::Syn => Some(TCP_SYN),
            Mode::Null => Some(0u8),
            Mode::Fin => Some(TCP_FIN),
            Mode::Xmas => Some(TCP_FIN | TCP_PSH | TCP_URG),
            Mode::Ack => Some(TCP_ACK),
            _ => None,
        }
    }

    /// Bounds `(low, high)` of the source-port window, `low` included, `high` excluded.
    pub fn source_ports(&self) -> (r: (u16, u16))
        ensures
            r == source_port_window(*self),
            r.0 < r.1,
    {
        match self {
            Mode::Udp => (49152u16, 65535u16),
            _ => (60000u16, 65000u16),
        }
    }

    /// The colored name shown in the summary.
    pub fn label(&self) -> (r: &'static str)
        ensures
            r@ == mode_text(*self),
    {
        match self {
            Mode::Udp => "\x1b[96mUDP\x1b[0m",
            Mode::Tcp => "\x1b[34mTCP Connect\x1b[0m",
            Mode::Syn => "\x1b[32mSYN\x1b[0m",
            Mode::Null => "\x1b[35mNULL\x1b[0m",
            Mode::Fin => "\x1b[36mFIN\x1b[0m",
            Mode::Xmas => "\x1b[31mXMAS\x1b[0m",
            Mode::Ack => "\x1b[33mACK\x1b[0m",
        }
    }
}

impl PortStatus {
    /// The colored name shown in the summary.
    pub fn label(&self) -> (r: &'static str)
        ensures
            r@ == status_text(*self),
    {
        match self {
            PortStatus::Open => "\x1b[32mOpen\x1b[0m",
            PortStatus::Closed => "\x1b[31mClosed\x1b[0m",
            PortStatus::Filtered => "\x1b[33mFiltered\x1b[0m",
            PortStatus::Unfiltered => "\x1b[36mUnfiltered\x1b[0m",
            PortStatus::OpenFiltered => "\x1b[35mOpen/Filtered\x1b[0m",
        }
    }
}

} // verus!
