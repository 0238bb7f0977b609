use portscan::arp_builder::{create_arp_request_packet, create_arp_response_packet, parse_arp_response};
use portscan::icmp_builder::{
    build_icmp_frame, create_icmp_echo_reply_packet, create_icmp_echo_request_packet, parse_icmp_packet,
};
use portscan::tcp_builder::{
    build_tcp_frame, create_tcp_frame, create_tcp_packet, parse_tcp_frame, parse_tcp_packet,
    parse_tcp_status, FrameError,
};
use portscan::udp_builder::{build_udp_frame, create_udp_frame, parse_udp_packet};
use portscan::wire::checksum;
use portscan::{Mode, PortStatus};

const OUR_MAC: [u8; 6] = [0x02, 0x11, 0x22, 0x33, 0x44, 0x55];
const PEER_MAC: [u8; 6] = [0x02, 0xaa, 0xbb, 0xcc, 0xdd, 0xee];
const OUR_IP: [u8; 4] = [10, 0, 0, 2];
const PEER_IP: [u8; 4] = [10, 0, 0, 5];

/// One's complement sum of the 16-bit words, folded.
fn ones_sum(data: &[u8]) -> u16 {
    let mut sum: u32 = 0;
    let mut i = 0;
    while i + 1 < data.len() {
        sum += ((data[i] as u32) << 8) | data[i + 1] as u32;
        i += 2;
    }
    if i < data.len() {
        sum += (data[i] as u32) << 8;
    }
    while sum >> 16 != 0 {
        sum = (sum >> 16) + (sum & 0xffff);
    }
    sum as u16
}

fn pseudo(src: [u8; 4], dst: [u8; 4], proto: u8, len: u16) -> Vec<u8> {
    let mut p = Vec::new();
    p.extend_from_slice(&src);
    p.extend_from_slice(&dst);
    p.push(0);
    p.push(proto);
    p.extend_from_slice(&len.to_be_bytes());
    p
}

#[test]
fn checksum_of_rfc_example_header() {
    let hdr = vec![
        0x45, 0x00, 0x00, 0x73, 0x00, 0x00, 0x40, 0x00, 0x40, 0x11, 0x00, 0x00, 0xc0, 0xa8, 0x00, 0x01,
        0xc0, 0xa8, 0x00, 0xc7,
    ];
    assert_eq!(checksum(&hdr, 5), 0xb861);
    assert_eq!(checksum(&Vec::new(), 0), 0);
    // an odd last byte counts as a high byte
    assert_eq!(checksum(&vec![0x01], 9), !0x0100u16);
}

#[test]
fn tcp_frame_layout_and_checksums() {
    let f = build_tcp_frame(OUR_MAC, PEER_MAC, OUR_IP, PEER_IP, 61000, 80, 0x02, 64, 0x1234, 0xdeadbeef);
    assert_eq!(f.len(), 54);
    assert_eq!(&f[0..6], &PEER_MAC);
    assert_eq!(&f[6..12], &OUR_MAC);
    assert_eq!(&f[12..14], &[0x08, 0x00]);
    assert_eq!(f[14], 0x45);
    assert_eq!(&f[16..18], &[0, 40]);
    assert_eq!(&f[18..20], &[0x12, 0x34]);
    assert_eq!(&f[20..22], &[0x40, 0x00]);
    assert_eq!(f[22], 64);
    assert_eq!(f[23], 6);
    assert_eq!(&f[26..30], &OUR_IP);
    assert_eq!(&f[30..34], &PEER_IP);
    assert_eq!(ones_sum(&f[14..34]), 0xffff);
    assert_eq!(&f[34..36], &61000u16.to_be_bytes());
    assert_eq!(&f[36..38], &[0, 80]);
    assert_eq!(&f[38..42], &[0xde, 0xad, 0xbe, 0xef]);
    assert_eq!(&f[42..46], &[0, 0, 0, 0]);
    assert_eq!(f[46], 0x50);
    assert_eq!(f[47], 0x02);
    assert_eq!(&f[48..50], &64240u16.to_be_bytes());
    let mut covered = pseudo(OUR_IP, PEER_IP, 6, 20);
    covered.extend_from_slice(&f[34..54]);
    assert_eq!(ones_sum(&covered), 0xffff);
}

#[test]
fn tcp_frame_round_trip() {
    for flags in [0x00u8, 0x01, 0x02, 0x10, 0x29, 0xff] {
        let f = create_tcp_frame(OUR_IP, OUR_MAC, 60123, PEER_IP, PEER_MAC, 443, flags);
        assert_eq!(parse_tcp_frame(&f), Some((60123, 443, flags)));
    }
    assert_eq!(parse_tcp_frame(&[0u8; 53]), None);
}

#[test]
fn tcp_probe_ttl_is_drawn_in_range() {
    for _ in 0..200 {
        let f = create_tcp_frame(OUR_IP, OUR_MAC, 60000, PEER_IP, PEER_MAC, 22, 0x02);
        assert!(f[22] >= 32 && f[22] < 128);
        assert_eq!(ones_sum(&f[14..34]), 0xffff);
    }
}

#[test]
fn tcp_packet_fills_a_buffer() {
    let mut buf = vec![0xeeu8; 60];
    assert_eq!(create_tcp_packet(&mut buf, OUR_MAC, PEER_MAC, OUR_IP, PEER_IP, 60001, 25, 0x02), Ok(()));
    assert_eq!(parse_tcp_frame(&buf[..54]), Some((60001, 25, 0x02)));
    assert_eq!(&buf[54..], &[0xee; 6]);
    let mut short = vec![7u8; 53];
    assert_eq!(
        create_tcp_packet(&mut short, OUR_MAC, PEER_MAC, OUR_IP, PEER_IP, 60001, 25, 0x02),
        Err(FrameError::BufferTooShort)
    );
    assert_eq!(short, vec![7u8; 53]);
}

#[test]
fn tcp_flags_classify() {
    assert_eq!(parse_tcp_status(0x12), Some(PortStatus::Open));
    assert_eq!(parse_tcp_status(0x14), Some(PortStatus::Closed));
    assert_eq!(parse_tcp_status(0x04), Some(PortStatus::Closed));
    assert_eq!(parse_tcp_status(0x02), None);
    assert_eq!(parse_tcp_status(0x10), None);
    let mut seg = vec![0u8; 20];
    seg[0..2].copy_from_slice(&80u16.to_be_bytes());
    seg[2..4].copy_from_slice(&61000u16.to_be_bytes());
    seg[13] = 0x12;
    assert_eq!(parse_tcp_packet(&seg, Mode::Syn), Some((61000, 80, PortStatus::Open)));
    assert_eq!(parse_tcp_packet(&seg, Mode::Tcp), None);
    assert_eq!(parse_tcp_packet(&seg[..19], Mode::Syn), None);
}

#[test]
fn udp_frame_layout_and_checksums() {
    let f = build_udp_frame(OUR_MAC, PEER_MAC, OUR_IP, PEER_IP, 50000, 53, 99, 7);
    assert_eq!(f.len(), 42);
    assert_eq!(f[23], 17);
    assert_eq!(f[22], 99);
    assert_eq!(&f[16..18], &[0, 28]);
    assert_eq!(ones_sum(&f[14..34]), 0xffff);
    assert_eq!(&f[34..36], &50000u16.to_be_bytes());
    assert_eq!(&f[36..38], &[0, 53]);
    assert_eq!(&f[38..40], &[0, 8]);
    let mut covered = pseudo(OUR_IP, PEER_IP, 17, 8);
    covered.extend_from_slice(&f[34..42]);
    assert_eq!(ones_sum(&covered), 0xffff);
    let g = create_udp_frame(OUR_IP, OUR_MAC, 50000, PEER_IP, PEER_MAC, 53);
    assert_eq!(&g[34..42], &f[34..42]);
}

#[test]
fn udp_reply_only_in_udp_mode() {
    let mut seg = vec![0u8; 8];
    seg[0..2].copy_from_slice(&53u16.to_be_bytes());
    seg[2..4].copy_from_slice(&50000u16.to_be_bytes());
    assert_eq!(parse_udp_packet(&seg, Mode::Udp), Some((50000, 53, PortStatus::Open)));
    assert_eq!(parse_udp_packet(&seg, Mode::Syn), None);
    assert_eq!(parse_udp_packet(&seg[..7], Mode::Udp), None);
}

#[test]
fn icmp_echo_frames() {
    let f = build_icmp_frame(8, OUR_MAC, PEER_MAC, OUR_IP, PEER_IP, 64, 1, 0x0102, 0x0304);
    assert_eq!(f.len(), 42);
    assert_eq!(f[22], 64);
    assert_eq!(f[23], 1);
    assert_eq!(&f[34..36], &[8, 0]);
    assert_eq!(&f[38..42], &[1, 2, 3, 4]);
    assert_eq!(ones_sum(&f[14..34]), 0xffff);
    assert_eq!(ones_sum(&f[34..42]), 0xffff);
    let req = create_icmp_echo_request_packet(OUR_IP, OUR_MAC, PEER_IP, PEER_MAC);
    assert_eq!(req[34], 8);
    assert!(req[22] >= 32 && req[22] < 128);
    assert_eq!(ones_sum(&req[34..42]), 0xffff);
    let rep = create_icmp_echo_reply_packet(OUR_IP, OUR_MAC, PEER_IP, PEER_MAC);
    assert_eq!(rep[34], 0);
    assert_eq!(ones_sum(&rep[34..42]), 0xffff);
}

fn unreachable(code: u8, proto: u8, sport: u16, dport: u16) -> Vec<u8> {
    let mut m = vec![3u8, code, 0, 0, 0, 0, 0, 0];
    let mut ip = vec![0x45u8, 0, 0, 28, 0, 0, 0x40, 0, 64, proto, 0, 0];
    ip.extend_from_slice(&OUR_IP);
    ip.extend_from_slice(&PEER_IP);
    m.extend_from_slice(&ip);
    m.extend_from_slice(&sport.to_be_bytes());
    m.extend_from_slice(&dport.to_be_bytes());
    m.extend_from_slice(&[0, 8, 0, 0]);
    m
}

#[test]
fn icmp_unreachable_table() {
    for code in [0u8, 1, 2, 9, 10, 13] {
        assert_eq!(parse_icmp_packet(&unreachable(code, 6, 61000, 80), Mode::Syn), Some((61000, 80, PortStatus::Filtered)));
        assert_eq!(parse_icmp_packet(&unreachable(code, 17, 50000, 53), Mode::Udp), Some((50000, 53, PortStatus::Filtered)));
    }
    assert_eq!(parse_icmp_packet(&unreachable(3, 17, 50000, 53), Mode::Udp), Some((50000, 53, PortStatus::Closed)));
    assert_eq!(parse_icmp_packet(&unreachable(3, 6, 61000, 80), Mode::Syn), None);
    assert_eq!(parse_icmp_packet(&unreachable(4, 17, 50000, 53), Mode::Udp), None);
    assert_eq!(parse_icmp_packet(&unreachable(1, 1, 50000, 53), Mode::Udp), None);
    assert_eq!(parse_icmp_packet(&unreachable(3, 17, 50000, 53), Mode::Tcp), None);
    let mut echo = unreachable(3, 17, 50000, 53);
    echo[0] = 0;
    assert_eq!(parse_icmp_packet(&echo, Mode::Udp), None);
    let m = unreachable(3, 17, 50000, 53);
    assert_eq!(parse_icmp_packet(&m[..35], Mode::Udp), None);
}

#[test]
fn arp_request_and_reply() {
    let req = create_arp_request_packet(OUR_IP, OUR_MAC, PEER_IP);
    assert_eq!(req.len(), 42);
    assert_eq!(&req[0..6], &[0xff; 6]);
    assert_eq!(&req[6..12], &OUR_MAC);
    assert_eq!(&req[12..14], &[0x08, 0x06]);
    assert_eq!(&req[14..22], &[0, 1, 8, 0, 6, 4, 0, 1]);
    assert_eq!(&req[22..28], &OUR_MAC);
    assert_eq!(&req[28..32], &OUR_IP);
    assert_eq!(&req[32..38], &[0; 6]);
    assert_eq!(&req[38..42], &PEER_IP);
    // the peer's answer to us
    let rep = create_arp_response_packet(PEER_IP, PEER_MAC, OUR_IP, OUR_MAC);
    assert_eq!(&rep[0..6], &OUR_MAC);
    assert_eq!(&rep[20..22], &[0, 2]);
    assert_eq!(parse_arp_response(&rep, OUR_IP, OUR_MAC, PEER_IP), Some(PEER_MAC));
    assert_eq!(parse_arp_response(&rep, OUR_IP, OUR_MAC, [10, 0, 0, 6]), None);
    assert_eq!(parse_arp_response(&rep, OUR_IP, PEER_MAC, PEER_IP), None);
    assert_eq!(parse_arp_response(&req, PEER_IP, [0; 6], OUR_IP), None);
    assert_eq!(parse_arp_response(&rep[..41], OUR_IP, OUR_MAC, PEER_IP), None);
}
