use vstd::prelude::*;
use crate::probe_table::ProbeTable;
use crate::random::random_in;
use crate::scanner_enums::{mode_flags, silence_status, source_port_window, Mode, PortStatus};
use crate::tcp_builder::{create_tcp_frame, is_tcp_probe};
use crate::udp_builder::{create_udp_frame, is_udp_probe};

verus! {

/// How a connect attempt ended.
#[derive(Debug, Clone, Copy, PartialEq, Eq, Structural)]
pub enum ConnectOutcome {
    Connected,
    Refused,
    TimedOut,
    NotConnected,
    HostUnreachable,
    NetworkUnreachable,
    OtherError,
    DeadlineElapsed,
}

pub open spec fn connect_status_of(o: ConnectOutcome) -> PortStatus {
    match o {
        ConnectOutcome::Connected => PortStatus::Open,
        ConnectOutcome::Refused => PortStatus::Closed,
        _ => PortStatus::Filtered,
    }
}

/// The status of a connect-mode probe: open when the handshake completed, closed
/// when refused, filtered on any other error or when the deadline passed.
pub fn connect_status(outcome: ConnectOutcome) -> (r: PortStatus)
    ensures
        r == connect_status_of(outcome),
{
    match outcome {
        ConnectOutcome::Connected => PortStatus::Open,
        ConnectOutcome::Refused => PortStatus::Closed,
        _ => PortStatus::Filtered,
    }
}

/// What a raw probe's wait on its delivery channel produced.
#[derive(Debug, Clone, Copy, PartialEq, Eq, Structural)]
pub enum Wakeup {
    /// The listener delivered `status`, `elapsed_ms` after the wait began.
    Delivered { status: PortStatus, elapsed_ms: u64 },
    TimedOut,
    ChannelClosed,
}

/// A delivery counts only when it came before the timeout; otherwise the mode's
/// default-on-silence applies.
pub open spec fn wakeup_status(mode: Mode, timeout_ms: u64, w: Wakeup) -> PortStatus {
    match w {
        Wakeup::Delivered { status, elapsed_ms } => if elapsed_ms < timeout_ms {
            status
        } else {
            silence_status(mode)
        },
        _ => silence_status(mode),
    }
}

pub fn probe_status(mode: Mode, timeout_ms: u64, w: Wakeup) -> (r: PortStatus)
    ensures
        r == wakeup_status(mode, timeout_ms, w),
{
    match w {
        Wakeup::Delivered { status, elapsed_ms } => if elapsed_ms < timeout_ms {
            status
        } else {
            mode.default_status()
        },
        _ => mode.default_status(),
    }
}

/// With a zero timeout every raw probe settles on its mode's default-on-silence,
/// whatever the wait produced.
pub proof fn lemma_zero_timeout_is_silence(mode: Mode, w: Wakeup)
    ensures
        wakeup_status(mode, 0, w) == silence_status(mode),
{
}

/// Draws the ephemeral source port of a raw probe from the mode's window.
pub fn source_port(mode: Mode) -> (r: u16)
    ensures
        source_port_window(mode).0 <= r < source_port_window(mode).1,
{
    let (low, high) = mode.source_ports();
    random_in(low, high)
}

/// The probe frame a raw mode sends: a UDP datagram in UDP mode, a TCP segment
/// with the mode's flags in the raw TCP modes, nothing in connect mode.
pub open spec fn is_mode_probe(
    f: Option<Vec<u8>>,
    mode: Mode,
    src_ip: [u8; 4],
    src_mac: [u8; 6],
    src_port: u16,
    dst_ip: [u8; 4],
    dst_mac: [u8; 6],
    dst_port: u16,
) -> bool {
    match mode {
        Mode::Tcp => f is None,
        Mode::Udp => f is Some && is_udp_probe(f->0@, src_mac, dst_mac, src_ip, dst_ip, src_port, dst_port),
        _ => f is Some && is_tcp_probe(
            f->0@,
            src_mac,
            dst_mac,
            src_ip,
            dst_ip,
            src_port,
            dst_port,
            mode_flags(mode)->0,
        ),
    }
}

/// Builds the frame that `mode` sends from `src_port` to `dst_port`.
pub fn probe_frame(
    mode: Mode,
    src_ip: [u8; 4],
    src_mac: [u8; 6],
    src_port: u16,
    dst_ip: [u8; 4],
    dst_mac: [u8; 6],
    dst_port: u16,
) -> (r: Option<Vec<u8>>)
    ensures
        is_mode_probe(r, mode, src_ip, src_mac, src_port, dst_ip, dst_mac, dst_port),
{
    match mode.tcp_flags() {
        Some(flags) => Some(create_tcp_frame(src_ip, src_mac, src_port, dst_ip, dst_mac, dst_port, flags)),
        None => if matches!(mode, Mode::Udp) {
            Some(create_udp_frame(src_ip, src_mac, src_port, dst_ip, dst_mac, dst_port))
        } else {
            None
        },
    }
}

/// Where a raw probe stands in its life.
#[derive(Debug, Clone, Copy, PartialEq, Eq, Structural)]
pub enum ProbePhase {
    /// Its rendezvous is in the table; the frame is not sent yet.
    Registered,
    /// The frame went out; it waits for the listener or the timeout.
    InFlight,
    /// Its rendezvous is gone and its status is settled.
    Finalized(PortStatus),
}

/// One raw-mode probe: its key in the rendezvous table and its phase.
#[derive(Debug, Clone, Copy, PartialEq, Eq, Structural)]
pub struct RawProbe {
    pub mode: Mode,
    pub src_port: u16,
    pub dst_port: u16,
    pub phase: ProbePhase,
}

impl RawProbe {
    pub open spec fn key(&self) -> (u16, u16) {
        (self.src_port, self.dst_port)
    }

    /// A probe's rendezvous exists exactly while the probe is not finalized.
    pub open spec fn agrees_with<H>(&self, table: &ProbeTable<H>) -> bool {
        (self.phase is Finalized) <==> !table.view().contains_key(self.key())
    }

    /// Registers a probe from `src_port` to `dst_port` with its delivery handle; `None`
    /// when another in-flight probe already holds that key (the caller draws another port).
    pub fn start<H>(table: &mut ProbeTable<H>, mode: Mode, src_port: u16, dst_port: u16, handle: H) -> (r: Option<RawProbe>)
        requires
            old(table).wf(),
        ensures
            final(table).wf(),
            r is Some <==> !old(table).view().contains_key((src_port, dst_port)),
            r is Some ==> final(table).view() == old(table).view().insert((src_port, dst_port), handle)
                && r->0 == (RawProbe { mode, src_port, dst_port, phase: ProbePhase::Registered })
                && r->0.agrees_with(final(table)),
            r is None ==> final(table).view() == old(table).view(),
    {
        if table.register(src_port, dst_port, handle) {
            Some(RawProbe { mode, src_port, dst_port, phase: ProbePhase::Registered })
        } else {
            None
        }
    }

    /// Records the outcome of transmitting the frame. On success the probe is in flight
    /// and its rendezvous stays; on failure it is finalized as filtered and its
    /// rendezvous removed.
    pub fn sent<H>(&mut self, table: &mut ProbeTable<H>, ok: bool)
        requires
            old(table).wf(),
            old(self).phase == ProbePhase::Registered,
            old(self).agrees_with(old(table)),
        ensures
            final(table).wf(),
            final(self).key() == old(self).key(),
            final(self).mode == old(self).mode,
            final(self).agrees_with(final(table)),
            ok ==> final(self).phase == ProbePhase::InFlight && final(table).view() == old(table).view(),
            !ok ==> final(self).phase == ProbePhase::Finalized(PortStatus::Filtered)
                && final(table).view() == old(table).view().remove(old(self).key()),
    {
        if ok {
            self.phase = ProbePhase::InFlight;
        } else {
            let _ = table.remove(self.src_port, self.dst_port);
            self.phase = ProbePhase::Finalized(PortStatus::Filtered);
        }
    }

    /// Ends the wait: removes the rendezvous and settles the status from what the
    /// wait produced, which it also returns.
    pub fn finish<H>(&mut self, table: &mut ProbeTable<H>, timeout_ms: u64, w: Wakeup) -> (r: PortStatus)
        requires
            old(table).wf(),
            old(self).phase == ProbePhase::InFlight,
            old(self).agrees_with(old(table)),
        ensures
            final(table).wf(),
            r == wakeup_status(old(self).mode, timeout_ms, w),
            *final(self) == (RawProbe { phase: ProbePhase::Finalized(r), ..*old(self) }),
            final(table).view() == old(table).view().remove(old(self).key()),
            !final(table).view().contains_key(old(self).key()),
            final(self).agrees_with(final(table)),
    {
        let _ = table.remove(self.src_port, self.dst_port);
        let r = probe_status(self.mode, timeout_ms, w);
        self.phase = ProbePhase::Finalized(r);
        r
    }
}

/// A raw probe's rendezvous is in the table while the probe is registered or in
/// flight, and gone once it is finalized: `start`, `sent` and `finish` each keep
/// the probe and the table in agreement.
pub proof fn lemma_rendezvous_lifetime<H>(p: RawProbe, table: &ProbeTable<H>)
    requires
        p.agrees_with(table),
    ensures
        p.phase == ProbePhase::InFlight ==> table.view().contains_key(p.key()),
        p.phase == ProbePhase::Registered ==> table.view().contains_key(p.key()),
        p.phase is Finalized ==> !table.view().contains_key(p.key()),
{
}

} // verus!
