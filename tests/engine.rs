use portscan::probe::{connect_status, probe_frame, probe_status, source_port, ConnectOutcome, ProbePhase, RawProbe, Wakeup};
use portscan::probe_table::ProbeTable;
use portscan::schedule::ScanSchedule;
use portscan::tcp_builder::parse_tcp_frame;
use portscan::{Mode, PacketListener, PortStatus};

const IF_IP: [u8; 4] = [10, 0, 0, 2];
const TARGET: [u8; 4] = [10, 0, 0, 5];

fn reply_frame(src: [u8; 4], dst: [u8; 4], proto: u8, l4: &[u8]) -> Vec<u8> {
    let mut f = vec![0u8; 12];
    f.extend_from_slice(&[0x08, 0x00]);
    let total = (20 + l4.len()) as u16;
    f.extend_from_slice(&[0x45, 0]);
    f.extend_from_slice(&total.to_be_bytes());
    f.extend_from_slice(&[0, 0, 0x40, 0, 64, proto, 0, 0]);
    f.extend_from_slice(&src);
    f.extend_from_slice(&dst);
    f.extend_from_slice(l4);
    f
}

fn tcp_reply(sport: u16, dport: u16, flags: u8) -> Vec<u8> {
    let mut t = vec![0u8; 20];
    t[0..2].copy_from_slice(&sport.to_be_bytes());
    t[2..4].copy_from_slice(&dport.to_be_bytes());
    t[12] = 0x50;
    t[13] = flags;
    reply_frame(TARGET, IF_IP, 6, &t)
}

/// Runs one raw probe against a listener fed `reply` (built from the probe's own port).
fn raw_probe(mode: Mode, target_port: u16, timeout: u64, reply: Option<&dyn Fn(u16) -> Vec<u8>>) -> PortStatus {
    let mut table: ProbeTable<u32> = ProbeTable::new();
    let listener = PacketListener::new(IF_IP, TARGET, mode);
    let (lo, _) = mode.source_ports();
    let src_port = lo + 17;
    let mut probe = RawProbe::start(&mut table, mode, src_port, target_port, 7).unwrap();
    let frame = probe_frame(mode, IF_IP, [2, 0, 0, 0, 0, 1], src_port, TARGET, [2, 0, 0, 0, 0, 2], target_port);
    assert!(frame.is_some());
    probe.sent(&mut table, true);
    assert_eq!(probe.phase, ProbePhase::InFlight);
    assert!(table.contains(src_port, target_port));
    let wake = match reply {
        Some(make) => match listener.route(&table, &make(src_port)) {
            Some((handle, status)) => {
                assert_eq!(*handle, 7);
                Wakeup::Delivered { status, elapsed_ms: 5 }
            }
            None => Wakeup::TimedOut,
        },
        None => Wakeup::TimedOut,
    };
    let status = probe.finish(&mut table, timeout, wake);
    assert!(!table.contains(src_port, target_port));
    assert_eq!(probe.phase, ProbePhase::Finalized(status));
    status
}

#[test]
fn connect_open() {
    assert_eq!(connect_status(ConnectOutcome::Connected), PortStatus::Open);
}

#[test]
fn connect_refused() {
    assert_eq!(connect_status(ConnectOutcome::Refused), PortStatus::Closed);
}

#[test]
fn connect_other_outcomes_are_filtered() {
    for o in [
        ConnectOutcome::TimedOut,
        ConnectOutcome::NotConnected,
        ConnectOutcome::HostUnreachable,
        ConnectOutcome::NetworkUnreachable,
        ConnectOutcome::OtherError,
        ConnectOutcome::DeadlineElapsed,
    ] {
        assert_eq!(connect_status(o), PortStatus::Filtered);
    }
}

#[test]
fn syn_with_syn_ack_is_open() {
    let make = |p: u16| tcp_reply(80, p, 0x12);
    assert_eq!(raw_probe(Mode::Syn, 80, 2500, Some(&make)), PortStatus::Open);
}

#[test]
fn syn_with_rst_is_closed() {
    let make = |p: u16| tcp_reply(80, p, 0x04);
    assert_eq!(raw_probe(Mode::Syn, 80, 2500, Some(&make)), PortStatus::Closed);
}

#[test]
fn xmas_silence_is_open_filtered() {
    assert_eq!(raw_probe(Mode::Xmas, 80, 200, None), PortStatus::OpenFiltered);
}

#[test]
fn udp_port_unreachable_is_closed() {
    let make = |p: u16| {
        let mut m = vec![3u8, 3, 0, 0, 0, 0, 0, 0];
        let mut inner = vec![0x45u8, 0, 0, 28, 0, 0, 0x40, 0, 64, 17, 0, 0];
        inner.extend_from_slice(&IF_IP);
        inner.extend_from_slice(&TARGET);
        m.extend_from_slice(&inner);
        m.extend_from_slice(&p.to_be_bytes());
        m.extend_from_slice(&53u16.to_be_bytes());
        m.extend_from_slice(&[0, 8, 0, 0]);
        reply_frame(TARGET, IF_IP, 1, &m)
    };
    assert_eq!(raw_probe(Mode::Udp, 53, 2500, Some(&make)), PortStatus::Closed);
}

#[test]
fn udp_reply_is_open() {
    let make = |p: u16| {
        let mut u = Vec::new();
        u.extend_from_slice(&53u16.to_be_bytes());
        u.extend_from_slice(&p.to_be_bytes());
        u.extend_from_slice(&[0, 8, 0, 0]);
        reply_frame(TARGET, IF_IP, 17, &u)
    };
    assert_eq!(raw_probe(Mode::Udp, 53, 2500, Some(&make)), PortStatus::Open);
}

#[test]
fn silence_defaults_per_mode() {
    assert_eq!(raw_probe(Mode::Syn, 80, 200, None), PortStatus::Filtered);
    assert_eq!(raw_probe(Mode::Ack, 80, 200, None), PortStatus::Filtered);
    assert_eq!(raw_probe(Mode::Null, 80, 200, None), PortStatus::OpenFiltered);
    assert_eq!(raw_probe(Mode::Fin, 80, 200, None), PortStatus::OpenFiltered);
    assert_eq!(raw_probe(Mode::Udp, 80, 200, None), PortStatus::OpenFiltered);
}

#[test]
fn zero_timeout_gives_default_on_silence() {
    for mode in [Mode::Syn, Mode::Null, Mode::Fin, Mode::Xmas, Mode::Ack, Mode::Udp] {
        let w = Wakeup::Delivered { status: PortStatus::Open, elapsed_ms: 0 };
        assert_eq!(probe_status(mode, 0, w), mode.default_status());
        assert_eq!(probe_status(mode, 0, Wakeup::ChannelClosed), mode.default_status());
    }
    let make = |p: u16| tcp_reply(80, p, 0x12);
    assert_eq!(raw_probe(Mode::Syn, 80, 0, Some(&make)), PortStatus::Filtered);
}

#[test]
fn late_delivery_is_ignored() {
    let w = Wakeup::Delivered { status: PortStatus::Closed, elapsed_ms: 200 };
    assert_eq!(probe_status(Mode::Syn, 200, w), PortStatus::Filtered);
    assert_eq!(probe_status(Mode::Syn, 201, w), PortStatus::Closed);
}

#[test]
fn listener_filters_frames() {
    let l = PacketListener::new(IF_IP, TARGET, Mode::Syn);
    assert_eq!(l.handle_packet(&tcp_reply(80, 61000, 0x12)), Some((61000, 80, PortStatus::Open)));
    let mut t = vec![0u8; 20];
    t[13] = 0x12;
    assert_eq!(l.handle_packet(&reply_frame([10, 0, 0, 9], IF_IP, 6, &t)), None);
    assert_eq!(l.handle_packet(&reply_frame(TARGET, [10, 0, 0, 3], 6, &t)), None);
    let mut arp = tcp_reply(80, 61000, 0x12);
    arp[13] = 0x06;
    assert_eq!(l.handle_packet(&arp), None);
    assert_eq!(l.handle_packet(&reply_frame(TARGET, IF_IP, 47, &t)), None);
    assert_eq!(l.handle_packet(&tcp_reply(80, 61000, 0x12)[..33]), None);
    let connect = PacketListener::new(IF_IP, TARGET, Mode::Tcp);
    assert_eq!(connect.handle_packet(&tcp_reply(80, 61000, 0x12)), None);
}

#[test]
fn listener_routes_only_registered_keys() {
    let mut table: ProbeTable<&str> = ProbeTable::new();
    assert!(table.register(61000, 80, "a"));
    let l = PacketListener::new(IF_IP, TARGET, Mode::Syn);
    assert_eq!(l.route(&table, &tcp_reply(80, 61000, 0x04)), Some((&"a", PortStatus::Closed)));
    assert_eq!(l.route(&table, &tcp_reply(81, 61000, 0x04)), None);
}

#[test]
fn probe_table_keys_are_unique() {
    let mut table: ProbeTable<u8> = ProbeTable::new();
    assert!(table.register(1, 2, 10));
    assert!(!table.register(1, 2, 11));
    assert_eq!(table.lookup(1, 2), Some(&10));
    assert!(table.register(2, 1, 12));
    assert_eq!(table.remove(1, 2), Some(10));
    assert_eq!(table.remove(1, 2), None);
    assert_eq!(table.lookup(2, 1), Some(&12));
    assert!(RawProbe::start(&mut table, Mode::Syn, 2, 1, 13).is_none());
    assert_eq!(table.lookup(2, 1), Some(&12));
}

#[test]
fn failed_send_finalizes_filtered() {
    let mut table: ProbeTable<u8> = ProbeTable::new();
    let mut p = RawProbe::start(&mut table, Mode::Fin, 60001, 22, 1).unwrap();
    p.sent(&mut table, false);
    assert_eq!(p.phase, ProbePhase::Finalized(PortStatus::Filtered));
    assert!(!table.contains(60001, 22));
}

#[test]
fn probe_frames_follow_the_mode() {
    let src = [2, 0, 0, 0, 0, 1];
    let dst = [2, 0, 0, 0, 0, 2];
    for (mode, flags) in [(Mode::Syn, 0x02u8), (Mode::Null, 0), (Mode::Fin, 0x01), (Mode::Xmas, 0x29), (Mode::Ack, 0x10)] {
        let f = probe_frame(mode, IF_IP, src, 60500, TARGET, dst, 443).unwrap();
        assert_eq!(parse_tcp_frame(&f), Some((60500, 443, flags)));
    }
    let u = probe_frame(Mode::Udp, IF_IP, src, 50500, TARGET, dst, 53).unwrap();
    assert_eq!(u.len(), 42);
    assert_eq!(u[23], 17);
    assert!(probe_frame(Mode::Tcp, IF_IP, src, 1, TARGET, dst, 2).is_none());
}

fn run_schedule(start: u16, end: u16, concurrency: usize) -> (Vec<(u16, PortStatus)>, usize, usize) {
    let mut s = ScanSchedule::new(start, end, concurrency);
    let mut running: Vec<u16> = Vec::new();
    let mut launched = 0;
    let mut peak = 0;
    loop {
        while let Some(p) = s.next_port() {
            running.push(p);
            launched += 1;
        }
        peak = peak.max(running.len());
        if running.is_empty() {
            break;
        }
        let p = running.remove(0);
        assert!(s.complete(p, if p % 2 == 0 { PortStatus::Open } else { PortStatus::Closed }));
        assert!(!s.complete(p, PortStatus::Filtered));
    }
    assert!(s.is_finished());
    (s.results_list(), launched, peak)
}

#[test]
fn every_port_gets_one_result() {
    let (results, launched, _) = run_schedule(20, 30, 3);
    assert_eq!(launched, 11);
    let ports: Vec<u16> = results.iter().map(|r| r.0).collect();
    assert_eq!(ports, (20..=30).collect::<Vec<u16>>());
    assert_eq!(results[0], (20, PortStatus::Open));
    assert_eq!(results[1], (21, PortStatus::Closed));
}

#[test]
fn in_flight_never_exceeds_concurrency() {
    let (_, _, peak) = run_schedule(1, 100, 7);
    assert_eq!(peak, 7);
}

#[test]
fn single_port_single_probe() {
    let (results, launched, _) = run_schedule(443, 443, 500);
    assert_eq!(launched, 1);
    assert_eq!(results, vec![(443, PortStatus::Closed)]);
}

#[test]
fn concurrency_one_is_serial() {
    let (results, _, peak) = run_schedule(1, 10, 1);
    assert_eq!(peak, 1);
    assert_eq!(results.len(), 10);
    let mut s = ScanSchedule::new(1, 10, 1);
    assert_eq!(s.next_port(), Some(1));
    assert_eq!(s.next_port(), None);
}

#[test]
fn full_port_range_and_empty_range() {
    let (results, launched, _) = run_schedule(65530, 65535, 2);
    assert_eq!(launched, 6);
    assert_eq!(results.last().unwrap().0, 65535);
    let mut s = ScanSchedule::new(10, 9, 4);
    assert_eq!(s.next_port(), None);
    assert!(s.is_finished());
    assert!(s.results_list().is_empty());
}

#[test]
fn source_ports_are_drawn_from_the_mode_window() {
    let mut seen_udp = std::collections::HashSet::new();
    for _ in 0..500 {
        let u = source_port(Mode::Udp);
        assert!((49152..65535).contains(&u));
        seen_udp.insert(u);
        let t = source_port(Mode::Xmas);
        assert!((60000..65000).contains(&t));
    }
    assert!(seen_udp.len() > 1);
}
