use vstd::prelude::*;
use crate::frames::{
    checksum_word_ok, ethernet_header, ipv4_header, ipv4_header_bytes, ipv4_header_unsummed,
    lemma_stored_checksum_ok, push_ethernet_header, with_word, ETHERTYPE_IPV4, ETH_LEN, ICMP_LEN,
    IPV4_LEN, PROTO_ICMP, PROTO_TCP, PROTO_UDP,
};
use crate::random::{random_ttl, random_u16};
use crate::scanner_enums::{Mode, PortStatus};
use crate::wire::{be16_at, be16_bytes, checksum, internet_checksum, push_bytes, push_u16, read_u16, write_u16};

verus! {

pub const ICMP_ECHO_REPLY: u8 = 0;
pub const ICMP_DEST_UNREACHABLE: u8 = 3;
pub const ICMP_ECHO_REQUEST: u8 = 8;
pub const ICMP_PORT_UNREACHABLE: u8 = 3;

/// An 8-byte ICMP echo message of type `kind`, code 0, with a zero checksum.
pub open spec fn icmp_echo_unsummed(kind: u8, id: u16, seq: u16) -> Seq<u8> {
    seq![kind, 0u8, 0u8, 0u8] + be16_bytes(id) + be16_bytes(seq)
}

pub open spec fn icmp_echo(kind: u8, id: u16, seq: u16) -> Seq<u8> {
    let u = icmp_echo_unsummed(kind, id, seq);
    with_word(u, 2, internet_checksum(u, 1))
}

/// Ethernet + IPv4 + ICMP echo, 42 bytes.
pub open spec fn icmp_frame(
    kind: u8,
    src_mac: [u8; 6],
    dst_mac: [u8; 6],
    src_ip: [u8; 4],
    dst_ip: [u8; 4],
    ttl: u8,
    ident: u16,
    id: u16,
    seq: u16,
) -> Seq<u8> {
    ethernet_header(dst_mac, src_mac, ETHERTYPE_IPV4) + ipv4_header(
        28,
        ident,
        ttl,
        PROTO_ICMP,
        src_ip,
        dst_ip,
    ) + icmp_echo(kind, id, seq)
}

pub open spec fn is_icmp_echo_frame(
    f: Seq<u8>,
    kind: u8,
    src_mac: [u8; 6],
    dst_mac: [u8; 6],
    src_ip: [u8; 4],
    dst_ip: [u8; 4],
) -> bool {
    exists|ttl: u8, ident: u16, id: u16, seq: u16|
        32 <= ttl < 128 && f == icmp_frame(kind, src_mac, dst_mac, src_ip, dst_ip, ttl, ident, id, seq)
}

/// Network, host or protocol unreachable, or communication, host or network
/// administratively prohibited.
pub open spec fn filtering_code(code: u8) -> bool {
    code == 0 || code == 1 || code == 2 || code == 9 || code == 10 || code == 13
}

/// Interprets a destination-unreachable message through the probe it quotes:
/// `(our port, target port, status)`.
pub open spec fn icmp_reply(pkt: Seq<u8>, mode: Mode) -> Option<(u16, u16, PortStatus)> {
    if mode == Mode::Tcp || pkt.len() < 28 || pkt[0] != ICMP_DEST_UNREACHABLE {
        None
    } else {
        let ihl = pkt[8] % 16;
        let off = 8 + 4 * ihl;
        let code = pkt[1];
        if ihl < 5 || pkt.len() < off + 8 {
            None
        } else if pkt[17] == PROTO_TCP && filtering_code(code) {
            Some((be16_at(pkt, off), be16_at(pkt, off + 2), PortStatus::Filtered))
        } else if pkt[17] == PROTO_UDP && filtering_code(code) {
            Some((be16_at(pkt, off), be16_at(pkt, off + 2), PortStatus::Filtered))
        } else if pkt[17] == PROTO_UDP && code == ICMP_PORT_UNREACHABLE {
            Some((be16_at(pkt, off), be16_at(pkt, off + 2), PortStatus::Closed))
        } else {
            None
        }
    }
}

pub fn icmp_echo_bytes(kind: u8, id: u16, seq: u16) -> (r: Vec<u8>)
    ensures
        r@ == icmp_echo(kind, id, seq),
{
    let mut m: Vec<u8> = Vec::new();
    m.push(kind);
    m.push(0u8);
    m.push(0u8);
    m.push(0u8);
    push_u16(&mut m, id);
    push_u16(&mut m, seq);
    assert(m@ =~= icmp_echo_unsummed(kind, id, seq));
    let c = checksum(&m, 1);
    write_u16(&mut m, 2, c);
    m
}

/// Builds an ICMP echo frame of type `kind` with the given TTL, identification,
/// identifier and sequence number.
pub fn build_icmp_frame(
    kind: u8,
    src_mac: [u8; 6],
    dst_mac: [u8; 6],
    src_ip: [u8; 4],
    dst_ip: [u8; 4],
    ttl: u8,
    ident: u16,
    id: u16,
    seq: u16,
) -> (r: Vec<u8>)
    ensures
        r@ == icmp_frame(kind, src_mac, dst_mac, src_ip, dst_ip, ttl, ident, id, seq),
{
    let mut f: Vec<u8> = Vec::new();
    push_ethernet_header(&mut f, dst_mac, src_mac, ETHERTYPE_IPV4);
    let ip = ipv4_header_bytes(28, ident, ttl, PROTO_ICMP, src_ip, dst_ip);
    push_bytes(&mut f, &ip);
    let m = icmp_echo_bytes(kind, id, seq);
    push_bytes(&mut f, &m);
    assert(f@ =~= icmp_frame(kind, src_mac, dst_mac, src_ip, dst_ip, ttl, ident, id, seq));
    f
}

/// An echo request with a fresh TTL in `32..128`, identification, identifier and
/// sequence number.
pub fn create_icmp_echo_request_packet(
    src_ip: [u8; 4],
    src_mac: [u8; 6],
    dst_ip: [u8; 4],
    dst_mac: [u8; 6],
) -> (r: Vec<u8>)
    ensures
        is_icmp_echo_frame(r@, ICMP_ECHO_REQUEST, src_mac, dst_mac, src_ip, dst_ip),
{
    let ttl = random_ttl();
    let ident = random_u16();
    let id = random_u16();
    let seq = random_u16();
    build_icmp_frame(ICMP_ECHO_REQUEST, src_mac, dst_mac, src_ip, dst_ip, ttl, ident, id, seq)
}

/// An echo reply with a fresh TTL in `32..128`, identification, identifier and
/// sequence number.
pub fn create_icmp_echo_reply_packet(
    src_ip: [u8; 4],
    src_mac: [u8; 6],
    dst_ip: [u8; 4],
    dst_mac: [u8; 6],
) -> (r: Vec<u8>)
    ensures
        is_icmp_echo_frame(r@, ICMP_ECHO_REPLY, src_mac, dst_mac, src_ip, dst_ip),
{
    let ttl = random_ttl();
    let ident = random_u16();
    let id = random_u16();
    let seq = random_u16();
    build_icmp_frame(ICMP_ECHO_REPLY, src_mac, dst_mac, src_ip, dst_ip, ttl, ident, id, seq)
}

/// Reads the ICMP message that starts at `data[off]`.
pub fn icmp_reply_at(data: &[u8], off: usize, mode: Mode) -> (r: Option<(u16, u16, PortStatus)>)
    requires
        off <= data@.len(),
    ensures
        r == icmp_reply(data@.subrange(off as int, data@.len() as int), mode),
{
    let ghost pkt = data@.subrange(off as int, data@.len() as int);
    let n = data.len() - off;
    if matches!(mode, Mode::Tcp) || n < 28 || data[off] != ICMP_DEST_UNREACHABLE {
        return None;
    }
    let ihl = (data[off + 8] % 16) as usize;
    let inner = 8 + 4 * ihl;
    let code = data[off + 1];
    let proto = data[off + 17];
    if ihl < 5 || n < inner + 8 {
        return None;
    }
    let ours = read_u16(data, off + inner);
    let theirs = read_u16(data, off + inner + 2);
    assert(ours == be16_at(pkt, inner as int));
    assert(theirs == be16_at(pkt, inner + 2));
    let filtering = code == 0 || code == 1 || code == 2 || code == 9 || code == 10 || code == 13;
    if proto == PROTO_TCP && filtering {
        Some((ours, theirs, PortStatus::Filtered))
    } else if proto == PROTO_UDP && filtering {
        Some((ours, theirs, PortStatus::Filtered))
    } else if proto == PROTO_UDP && code == ICMP_PORT_UNREACHABLE {
        Some((ours, theirs, PortStatus::Closed))
    } else {
        None
    }
}

/// Reads a destination-unreachable message: `(our port, target port, status)`.
pub fn parse_icmp_packet(packet: &[u8], mode: Mode) -> (r: Option<(u16, u16, PortStatus)>)
    ensures
        r == icmp_reply(packet@, mode),
{
    assert(packet@.subrange(0, packet@.len() as int) =~= packet@);
    icmp_reply_at(packet, 0, mode)
}

/// Every ICMP echo frame built here is exactly Ethernet + IPv4 + ICMP long, declares
/// that IPv4 + ICMP length, and carries valid IPv4 and ICMP checksums.
pub proof fn lemma_icmp_frame_valid(
    kind: u8,
    src_mac: [u8; 6],
    dst_mac: [u8; 6],
    src_ip: [u8; 4],
    dst_ip: [u8; 4],
    ttl: u8,
    ident: u16,
    id: u16,
    seq: u16,
)
    ensures
        ({
            let f = icmp_frame(kind, src_mac, dst_mac, src_ip, dst_ip, ttl, ident, id, seq);
            &&& f.len() == ETH_LEN + IPV4_LEN + ICMP_LEN
            &&& be16_at(f, 16) == IPV4_LEN + ICMP_LEN
            &&& checksum_word_ok(f.subrange(14, 34), 5)
            &&& checksum_word_ok(f.subrange(34, 42), 1)
        }),
{
    let f = icmp_frame(kind, src_mac, dst_mac, src_ip, dst_ip, ttl, ident, id, seq);
    let iu = ipv4_header_unsummed(28, ident, ttl, PROTO_ICMP, src_ip, dst_ip);
    let ip = ipv4_header(28, ident, ttl, PROTO_ICMP, src_ip, dst_ip);
    assert(f.subrange(14, 34) =~= ip);
    assert(f.subrange(34, 42) =~= icmp_echo(kind, id, seq));
    lemma_stored_checksum_ok(iu, 5);
    lemma_stored_checksum_ok(icmp_echo_unsummed(kind, id, seq), 1);
    assert(f[16] == ip[2] && f[17] == ip[3]);
}

} // verus!
