use portscan::gateway::{
    adapter_matches, default_gateways, find_interface_index, gateways_found, next_message_offset, strip_zone, GatewayError,
    LinkRecord, RouteRecord,
};
use portscan::interface::{select_interface, InterfaceError, InterfaceInfo};
use portscan::{DeviceInterface, Mode, PortScanner, PortStatus};

fn device() -> DeviceInterface {
    DeviceInterface {
        name: "eth0".to_string(),
        mac: [2, 0x11, 0x22, 0x33, 0x44, 0x55],
        ip: [192, 168, 1, 20],
        netmask: [255, 255, 255, 0],
        default_gateway_ip: [192, 168, 1, 1],
    }
}

fn expected_summary(s: &PortScanner, results: &[(u16, PortStatus)]) -> String {
    let mut out = String::new();
    out += &format!("\n{} Scan Summary {}\n", "=".repeat(30), "=".repeat(30));
    out += &format!("Target IP   : {}.{}.{}.{}\n", s.target_ip[0], s.target_ip[1], s.target_ip[2], s.target_ip[3]);
    let m = s.target_mac;
    out += &format!("Target MAC  : {:02x}:{:02x}:{:02x}:{:02x}:{:02x}:{:02x}\n", m[0], m[1], m[2], m[3], m[4], m[5]);
    out += &format!("Scan mode   : {}\n", s.mode.label());
    out += &format!("Port range  : {} - {}\n", s.start_port, s.end_port);
    out += &format!("Concurrency : {}\n", s.concurrency);
    out += &format!("{}\n\n", "=".repeat(74));
    out += &format!("{:<12} {}\n", "PORT", "STATUS");
    let mut counts = [0usize; 4];
    for (port, status) in results {
        match status {
            PortStatus::Open => counts[0] += 1,
            PortStatus::Closed => counts[1] += 1,
            PortStatus::Filtered => counts[2] += 1,
            PortStatus::OpenFiltered => counts[3] += 1,
            _ => {}
        }
        out += &format!("{:<12} {}\n", format!("{}/tcp", port), status.label());
    }
    out += &format!("{}\n\n", "=".repeat(72));
    out += &format!(
        "Results: Open: \x1b[32m{}\x1b[0m | Closed: \x1b[31m{}\x1b[0m | Filtered: \x1b[33m{}\x1b[0m | Open/Filtered: \x1b[35m{}\x1b[0m | Total: \x1b[36m{}\x1b[0m\n",
        counts[0], counts[1], counts[2], counts[3], results.len()
    );
    out
}

#[test]
fn summary_text_is_exact_and_repeatable() {
    let s = PortScanner::new(device(), [10, 0, 0, 5], Some([2, 0xaa, 0xbb, 0xcc, 0xdd, 0xee]), 22, 23, 500, 2500, Mode::Syn);
    let results = vec![(22, PortStatus::Open), (23, PortStatus::Closed), (8080, PortStatus::OpenFiltered), (65535, PortStatus::Filtered)];
    let first = s.scan_summary(&results);
    assert_eq!(first, expected_summary(&s, &results));
    assert_eq!(s.scan_summary(&results), first);
    assert!(first.contains("22/tcp       \x1b[32mOpen\x1b[0m\n"));
    assert!(first.contains("Target MAC  : 02:aa:bb:cc:dd:ee\n"));
    let empty = s.scan_summary(&Vec::new());
    assert_eq!(empty, expected_summary(&s, &[]));
}

#[test]
fn unresolved_mac_falls_back_to_broadcast() {
    let s = PortScanner::new(device(), [8, 8, 8, 8], None, 1, 1024, 500, 2500, Mode::Udp);
    assert_eq!(s.target_mac, [0xff; 6]);
    let l = s.listener();
    assert_eq!(l.interface_ip, [192, 168, 1, 20]);
    assert_eq!(l.target_ip, [8, 8, 8, 8]);
    assert_eq!(l.mode, Mode::Udp);
}

#[test]
fn enum_labels_and_defaults() {
    assert_eq!(Mode::Xmas.label(), "\x1b[31mXMAS\x1b[0m");
    assert_eq!(Mode::Tcp.label(), "\x1b[34mTCP Connect\x1b[0m");
    assert_eq!(PortStatus::OpenFiltered.label(), "\x1b[35mOpen/Filtered\x1b[0m");
    assert_eq!(PortStatus::Unfiltered.label(), "\x1b[36mUnfiltered\x1b[0m");
    assert_eq!(Mode::Xmas.tcp_flags(), Some(0x29));
    assert_eq!(Mode::Udp.tcp_flags(), None);
    assert_eq!(Mode::Tcp.tcp_flags(), None);
    assert_eq!(Mode::Udp.source_ports(), (49152, 65535));
    assert_eq!(Mode::Syn.source_ports(), (60000, 65000));
    assert!(!Mode::Tcp.is_raw());
    assert!(Mode::Ack.is_raw());
}

#[test]
fn local_subnet_decides_next_hop() {
    let d = device();
    assert!(d.check_local_device([192, 168, 1, 200]));
    assert!(!d.check_local_device([192, 168, 2, 200]));
    assert_eq!(d.next_hop([192, 168, 1, 200]), [192, 168, 1, 200]);
    assert_eq!(d.next_hop([1, 1, 1, 1]), [192, 168, 1, 1]);
}

fn info(name: &str, lo: bool, mac: Option<[u8; 6]>, ips: Vec<([u8; 4], [u8; 4])>) -> InterfaceInfo {
    InterfaceInfo { name: name.to_string(), is_loopback: lo, mac, ipv4: ips }
}

#[test]
fn first_usable_interface_wins() {
    let net = ([10, 1, 2, 3], [255, 0, 0, 0]);
    let list = vec![
        info("lo", true, Some([0; 6]), vec![([127, 0, 0, 1], [255, 0, 0, 0])]),
        info("tun0", false, None, vec![net]),
        info("eth1", false, Some([2, 0, 0, 0, 0, 9]), vec![]),
        info("eth0", false, Some([2, 0, 0, 0, 0, 1]), vec![net]),
        info("eth2", false, Some([2, 0, 0, 0, 0, 2]), vec![net]),
    ];
    assert_eq!(select_interface(&list), Some(3));
    assert_eq!(select_interface(&list[..3].to_vec()), None);
    let d = DeviceInterface::from_parts(&list[3], &vec![[10, 0, 0, 1], [10, 0, 0, 254]]).unwrap();
    assert_eq!(d.name, "eth0");
    assert_eq!(d.ip, [10, 1, 2, 3]);
    assert_eq!(d.netmask, [255, 0, 0, 0]);
    assert_eq!(d.default_gateway_ip, [10, 0, 0, 1]);
    assert_eq!(DeviceInterface::from_parts(&list[1], &vec![[10, 0, 0, 1]]).unwrap_err(), InterfaceError::NoMacAddress);
    assert_eq!(DeviceInterface::from_parts(&list[2], &vec![[10, 0, 0, 1]]).unwrap_err(), InterfaceError::NoIpv4Address);
    assert_eq!(DeviceInterface::from_parts(&list[3], &vec![]).unwrap_err(), InterfaceError::NoGatewayFound);
}

#[test]
fn gateway_lookup_from_dumps() {
    let links = vec![
        LinkRecord { index: 1, name: "lo".to_string() },
        LinkRecord { index: 2, name: "eth0".to_string() },
        LinkRecord { index: 3, name: "eth0".to_string() },
    ];
    assert_eq!(find_interface_index(&links, &"eth0".to_string()), Ok(2));
    assert_eq!(find_interface_index(&links, &"wlan0".to_string()), Err(GatewayError::InterfaceNotFound));
    let v6 = [0xfe, 0x80, 0, 0, 0, 0, 0, 0, 0, 0, 0, 0, 0, 0, 0, 1];
    let routes = vec![
        RouteRecord { dst_prefix_len: 24, oif: Some(2), gateway_v4: Some([10, 0, 0, 9]), gateway_v6: None },
        RouteRecord { dst_prefix_len: 0, oif: Some(3), gateway_v4: Some([10, 9, 9, 9]), gateway_v6: None },
        RouteRecord { dst_prefix_len: 0, oif: Some(2), gateway_v4: Some([10, 0, 0, 1]), gateway_v6: None },
        RouteRecord { dst_prefix_len: 0, oif: Some(2), gateway_v4: None, gateway_v6: Some(v6) },
        RouteRecord { dst_prefix_len: 0, oif: None, gateway_v4: Some([10, 8, 8, 8]), gateway_v6: None },
    ];
    let (g4, g6) = default_gateways(&routes, 2).unwrap();
    assert_eq!(g4, vec![[10, 0, 0, 1]]);
    assert_eq!(g6, vec![v6]);
    assert_eq!(default_gateways(&routes, 7).unwrap_err(), GatewayError::NoGatewayFound);
    assert_eq!(default_gateways(&Vec::new(), 2).unwrap_err(), GatewayError::NoGatewayFound);
}

#[test]
fn netlink_framing_steps() {
    assert_eq!(next_message_offset(100, 0, 40), Some(40));
    assert_eq!(next_message_offset(100, 40, 60), Some(100));
    assert_eq!(next_message_offset(100, 40, 61), None);
    assert_eq!(next_message_offset(100, 40, 0), None);
}

#[test]
fn router_zone_is_stripped() {
    assert_eq!(strip_zone("fe80::1%en0"), "fe80::1");
    assert_eq!(strip_zone("192.168.1.1"), "192.168.1.1");
    assert_eq!(strip_zone("%en0"), "");
    assert_eq!(strip_zone(""), "");
    assert_eq!(strip_zone("a%b%c"), "a");
}

#[test]
fn adapter_name_matches_ignoring_case() {
    let id = b"\\Device\\NPF_{1A2B3C4D-AAAA-BBBB-CCCC-0123456789AB}";
    assert!(adapter_matches(id, b"{1a2b3c4d-aaaa-bbbb-cccc-0123456789ab}"));
    assert!(adapter_matches(id, b"{1A2B3C4D-AAAA-BBBB-CCCC-0123456789AB}"));
    assert!(!adapter_matches(id, b"{1a2b3c4d-aaaa-bbbb-cccc-0123456789ac}"));
    assert!(adapter_matches(b"abc", b""));
    assert!(!adapter_matches(b"ab", b"abc"));
    assert!(adapter_matches(b"xABC", b"abc"));
    assert!(!adapter_matches(b"[", b"{"));
}

#[test]
fn gateway_lists_must_not_both_be_empty() {
    assert_eq!(gateways_found(Vec::<u8>::new(), Vec::<u8>::new()), Err(GatewayError::NoGatewayFound));
    assert_eq!(gateways_found(vec![1u8], Vec::<u8>::new()), Ok((vec![1u8], vec![])));
    assert_eq!(gateways_found(Vec::<u8>::new(), vec![2u8]), Ok((vec![], vec![2u8])));
}
