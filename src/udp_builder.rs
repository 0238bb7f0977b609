use vstd::prelude::*;
use crate::frames::{
    checksum_word_ok, ethernet_header, ipv4_header, ipv4_header_bytes, ipv4_header_unsummed,
    lemma_stored_checksum_ok, pseudo_header, pseudo_header_bytes, push_ethernet_header, with_word,
    ETHERTYPE_IPV4, ETH_LEN, IPV4_LEN, PROTO_UDP, UDP_LEN,
};
use crate::random::{random_ttl, random_u16};
use crate::scanner_enums::{Mode, PortStatus};
use crate::wire::{
    be16_at, be16_bytes, checksum, internet_checksum, push_bytes, push_u16, read_u16, write_u16,
};

verus! {

/// An 8-byte, header-only UDP datagram with a zero checksum.
pub open spec fn udp_header_unsummed(sport: u16, dport: u16) -> Seq<u8> {
    be16_bytes(sport) + be16_bytes(dport) + be16_bytes(8) + seq![0u8, 0u8]
}

/// The checksum over pseudo-header and datagram; a computed zero is sent as all ones.
pub open spec fn udp_checksum_field(src_ip: [u8; 4], dst_ip: [u8; 4], sport: u16, dport: u16) -> u16 {
    let c = internet_checksum(
        pseudo_header(src_ip, dst_ip, PROTO_UDP, 8) + udp_header_unsummed(sport, dport),
        9,
    );
    if c == 0 {
        0xFFFF
    } else {
        c
    }
}

pub open spec fn udp_header(src_ip: [u8; 4], dst_ip: [u8; 4], sport: u16, dport: u16) -> Seq<u8> {
    with_word(udp_header_unsummed(sport, dport), 6, udp_checksum_field(src_ip, dst_ip, sport, dport))
}

/// Ethernet + IPv4 + UDP, 42 bytes.
pub open spec fn udp_frame(
    src_mac: [u8; 6],
    dst_mac: [u8; 6],
    src_ip: [u8; 4],
    dst_ip: [u8; 4],
    sport: u16,
    dport: u16,
    ttl: u8,
    ident: u16,
) -> Seq<u8> {
    ethernet_header(dst_mac, src_mac, ETHERTYPE_IPV4) + ipv4_header(
        28,
        ident,
        ttl,
        PROTO_UDP,
        src_ip,
        dst_ip,
    ) + udp_header(src_ip, dst_ip, sport, dport)
}

/// A UDP frame whose TTL lies in `32..128`, for some identification.
pub open spec fn is_udp_probe(
    f: Seq<u8>,
    src_mac: [u8; 6],
    dst_mac: [u8; 6],
    src_ip: [u8; 4],
    dst_ip: [u8; 4],
    sport: u16,
    dport: u16,
) -> bool {
    exists|ttl: u8, ident: u16|
        32 <= ttl < 128 && f == udp_frame(src_mac, dst_mac, src_ip, dst_ip, sport, dport, ttl, ident)
}

/// A UDP datagram from the target answers a UDP probe: open. `(our port, target port, status)`.
pub open spec fn udp_reply(seg: Seq<u8>, mode: Mode) -> Option<(u16, u16, PortStatus)> {
    if mode == Mode::Udp && seg.len() >= 8 {
        Some((be16_at(seg, 2), be16_at(seg, 0), PortStatus::Open))
    } else {
        None
    }
}

pub fn udp_header_bytes(src_ip: [u8; 4], dst_ip: [u8; 4], sport: u16, dport: u16) -> (r: Vec<u8>)
    ensures
        r@ == udp_header(src_ip, dst_ip, sport, dport),
{
    let mut u: Vec<u8> = Vec::new();
    push_u16(&mut u, sport);
    push_u16(&mut u, dport);
    push_u16(&mut u, 8);
    u.push(0u8);
    u.push(0u8);
    assert(u@ =~= udp_header_unsummed(sport, dport));
    let mut covered = pseudo_header_bytes(src_ip, dst_ip, PROTO_UDP, 8);
    push_bytes(&mut covered, &u);
    let c = checksum(&covered, 9);
    let field = if c == 0 {
        0xFFFFu16
    } else {
        c
    };
    write_u16(&mut u, 6, field);
    u
}

/// Builds the UDP frame with the given TTL and identification.
pub fn build_udp_frame(
    src_mac: [u8; 6],
    dst_mac: [u8; 6],
    src_ip: [u8; 4],
    dst_ip: [u8; 4],
    sport: u16,
    dport: u16,
    ttl: u8,
    ident: u16,
) -> (r: Vec<u8>)
    ensures
        r@ == udp_frame(src_mac, dst_mac, src_ip, dst_ip, sport, dport, ttl, ident),
{
    let mut f: Vec<u8> = Vec::new();
    push_ethernet_header(&mut f, dst_mac, src_mac, ETHERTYPE_IPV4);
    let ip = ipv4_header_bytes(28, ident, ttl, PROTO_UDP, src_ip, dst_ip);
    push_bytes(&mut f, &ip);
    let u = udp_header_bytes(src_ip, dst_ip, sport, dport);
    push_bytes(&mut f, &u);
    assert(f@ =~= udp_frame(src_mac, dst_mac, src_ip, dst_ip, sport, dport, ttl, ident));
    f
}

/// Builds a UDP probe with a fresh TTL in `32..128` and identification.
pub fn create_udp_frame(
    src_ip: [u8; 4],
    src_mac: [u8; 6],
    src_port: u16,
    dst_ip: [u8; 4],
    dst_mac: [u8; 6],
    dst_port: u16,
) -> (r: Vec<u8>)
    ensures
        is_udp_probe(r@, src_mac, dst_mac, src_ip, dst_ip, src_port, dst_port),
{
    let ttl = random_ttl();
    let ident = random_u16();
    build_udp_frame(src_mac, dst_mac, src_ip, dst_ip, src_port, dst_port, ttl, ident)
}

/// Reads the reply datagram that starts at `data[off]`.
pub fn udp_reply_at(data: &[u8], off: usize, mode: Mode) -> (r: Option<(u16, u16, PortStatus)>)
    requires
        off <= data@.len(),
    ensures
        r == udp_reply(data@.subrange(off as int, data@.len() as int), mode),
{
    let ghost seg = data@.subrange(off as int, data@.len() as int);
    if matches!(mode, Mode::Udp) && data.len() - off >= 8 {
        let ours = read_u16(data, off + 2);
        let theirs = read_u16(data, off);
        assert(ours == be16_at(seg, 2));
        assert(theirs == be16_at(seg, 0));
        Some((ours, theirs, PortStatus::Open))
    } else {
        None
    }
}

/// Reads a UDP reply datagram: `(our port, target port, status)`.
pub fn parse_udp_packet(segment: &[u8], mode: Mode) -> (r: Option<(u16, u16, PortStatus)>)
    ensures
        r == udp_reply(segment@, mode),
{
    assert(segment@.subrange(0, segment@.len() as int) =~= segment@);
    udp_reply_at(segment, 0, mode)
}

/// Every UDP frame built here is exactly Ethernet + IPv4 + UDP long, declares those
/// lengths in its IPv4 and UDP headers, and carries valid IPv4 and UDP checksums
/// (a computed zero being sent as all ones).
pub proof fn lemma_udp_frame_valid(
    src_mac: [u8; 6],
    dst_mac: [u8; 6],
    src_ip: [u8; 4],
    dst_ip: [u8; 4],
    sport: u16,
    dport: u16,
    ttl: u8,
    ident: u16,
)
    ensures
        ({
            let f = udp_frame(src_mac, dst_mac, src_ip, dst_ip, sport, dport, ttl, ident);
            let covered = pseudo_header(src_ip, dst_ip, PROTO_UDP, 8) + f.subrange(34, 42);
            &&& f.len() == ETH_LEN + IPV4_LEN + UDP_LEN
            &&& be16_at(f, 16) == IPV4_LEN + UDP_LEN
            &&& be16_at(f, 38) == UDP_LEN
            &&& checksum_word_ok(f.subrange(14, 34), 5)
            &&& (checksum_word_ok(covered, 9) || (internet_checksum(covered, 9) == 0 && be16_at(
                f,
                40,
            ) == 0xFFFF))
        }),
{
    let f = udp_frame(src_mac, dst_mac, src_ip, dst_ip, sport, dport, ttl, ident);
    let iu = ipv4_header_unsummed(28, ident, ttl, PROTO_UDP, src_ip, dst_ip);
    let ip = ipv4_header(28, ident, ttl, PROTO_UDP, src_ip, dst_ip);
    let p = pseudo_header(src_ip, dst_ip, PROTO_UDP, 8);
    let uu = udp_header_unsummed(sport, dport);
    let u = udp_header(src_ip, dst_ip, sport, dport);
    let c = internet_checksum(p + uu, 9);
    assert(f.subrange(14, 34) =~= ip);
    assert(f.subrange(34, 42) =~= u);
    lemma_stored_checksum_ok(iu, 5);
    assert(f[16] == ip[2] && f[17] == ip[3]);
    assert(f[38] == u[4] && f[39] == u[5] && f[40] == u[6] && f[41] == u[7]);
    if c != 0 {
        assert(p + u =~= with_word(p + uu, 18, c));
        lemma_stored_checksum_ok(p + uu, 9);
    } else {
        assert(p + u =~= with_word(p + uu, 18, 0xFFFF));
        crate::wire::lemma_word_sum_ignores_skipped(p + uu, 9, 0xFF, 0xFF, 0);
    }
}

} // verus!
