use vstd::prelude::*;
use crate::wire::{
    be16_at, be16_bytes, checksum, internet_checksum, lemma_word_sum_ignores_skipped, push_u16,
    write_u16,
};

verus! {

pub const ETHERTYPE_IPV4: u16 = 0x0800;
pub const ETHERTYPE_ARP: u16 = 0x0806;
pub const PROTO_ICMP: u8 = 1;
pub const PROTO_TCP: u8 = 6;
pub const PROTO_UDP: u8 = 17;
pub const ETH_LEN: usize = 14;
pub const IPV4_LEN: usize = 20;
pub const TCP_LEN: usize = 20;
pub const UDP_LEN: usize = 8;
pub const ICMP_LEN: usize = 8;
pub const ARP_LEN: usize = 28;
pub const TCP_WINDOW: u16 = 64240;
pub const BROADCAST_MAC: [u8; 6] = [0xff, 0xff, 0xff, 0xff, 0xff, 0xff];

pub open spec fn mac_bytes(m: [u8; 6]) -> Seq<u8> {
    seq![m[0], m[1], m[2], m[3], m[4], m[5]]
}

pub open spec fn ip_bytes(a: [u8; 4]) -> Seq<u8> {
    seq![a[0], a[1], a[2], a[3]]
}

/// `s` with `c` stored big-endian at `s[at]`, `s[at + 1]`.
pub open spec fn with_word(s: Seq<u8>, at: int, c: u16) -> Seq<u8> {
    s.update(at, (c / 256) as u8).update(at + 1, (c % 256) as u8)
}

pub open spec fn ethernet_header(dst: [u8; 6], src: [u8; 6], ethertype: u16) -> Seq<u8> {
    mac_bytes(dst) + mac_bytes(src) + be16_bytes(ethertype)
}

/// An IPv4 header (version 4, IHL 5, DF set, offset 0) with a zero checksum field.
pub open spec fn ipv4_header_unsummed(
    total_len: u16,
    ident: u16,
    ttl: u8,
    proto: u8,
    src: [u8; 4],
    dst: [u8; 4],
) -> Seq<u8> {
    seq![0x45u8, 0u8] + be16_bytes(total_len) + be16_bytes(ident) + seq![
        0x40u8,
        0u8,
        ttl,
        proto,
        0u8,
        0u8,
    ] + ip_bytes(src) + ip_bytes(dst)
}

/// An IPv4 header with its checksum word (bytes 10 and 11) filled in.
pub open spec fn ipv4_header(
    total_len: u16,
    ident: u16,
    ttl: u8,
    proto: u8,
    src: [u8; 4],
    dst: [u8; 4],
) -> Seq<u8> {
    let h = ipv4_header_unsummed(total_len, ident, ttl, proto, src, dst);
    with_word(h, 10, internet_checksum(h, 5))
}

/// The IPv4 pseudo-header that TCP and UDP checksums cover.
pub open spec fn pseudo_header(src: [u8; 4], dst: [u8; 4], proto: u8, len: u16) -> Seq<u8> {
    ip_bytes(src) + ip_bytes(dst) + seq![0u8, proto] + be16_bytes(len)
}

/// The 16-bit word `k` of `s` holds the checksum of `s` taken with that word
/// counted as zero, as IPv4, ICMP, TCP and UDP define their checksum fields.
pub open spec fn checksum_word_ok(s: Seq<u8>, k: int) -> bool {
    0 <= k && 2 * k + 1 < s.len() && be16_at(s, 2 * k) == internet_checksum(s, k)
}

/// Storing the checksum in the word it skips makes that word valid.
pub proof fn lemma_stored_checksum_ok(s: Seq<u8>, k: int)
    requires
        0 <= k,
        2 * k + 1 < s.len(),
    ensures
        checksum_word_ok(with_word(s, 2 * k, internet_checksum(s, k)), k),
{
    let c = internet_checksum(s, k);
    let s2 = with_word(s, 2 * k, c);
    lemma_word_sum_ignores_skipped(s, k, (c / 256) as u8, (c % 256) as u8, 0);
    assert(s2[2 * k] == (c / 256) as u8);
    assert(s2[2 * k + 1] == (c % 256) as u8);
}

pub fn push_mac(buf: &mut Vec<u8>, m: [u8; 6])
    ensures
        final(buf)@ == old(buf)@ + mac_bytes(m),
{
    buf.push(m[0]);
    buf.push(m[1]);
    buf.push(m[2]);
    buf.push(m[3]);
    buf.push(m[4]);
    buf.push(m[5]);
    assert(final(buf)@ =~= old(buf)@ + mac_bytes(m));
}

pub fn push_ip(buf: &mut Vec<u8>, a: [u8; 4])
    ensures
        final(buf)@ == old(buf)@ + ip_bytes(a),
{
    buf.push(a[0]);
    buf.push(a[1]);
    buf.push(a[2]);
    buf.push(a[3]);
    assert(final(buf)@ =~= old(buf)@ + ip_bytes(a));
}

pub fn push_ethernet_header(buf: &mut Vec<u8>, dst: [u8; 6], src: [u8; 6], ethertype: u16)
    ensures
        final(buf)@ == old(buf)@ + ethernet_header(dst, src, ethertype),
{
    push_mac(buf, dst);
    push_mac(buf, src);
    push_u16(buf, ethertype);
    assert(final(buf)@ =~= old(buf)@ + ethernet_header(dst, src, ethertype));
}

pub fn ipv4_header_bytes(
    total_len: u16,
    ident: u16,
    ttl: u8,
    proto: u8,
    src: [u8; 4],
    dst: [u8; 4],
) -> (r: Vec<u8>)
    ensures
        r@ == ipv4_header(total_len, ident, ttl, proto, src, dst),
{
    let mut h: Vec<u8> = Vec::new();
    h.push(0x45u8);
    h.push(0u8);
    push_u16(&mut h, total_len);
    push_u16(&mut h, ident);
    h.push(0x40u8);
    h.push(0u8);
    h.push(ttl);
    h.push(proto);
    h.push(0u8);
    h.push(0u8);
    push_ip(&mut h, src);
    push_ip(&mut h, dst);
    let ghost unsummed = ipv4_header_unsummed(total_len, ident, ttl, proto, src, dst);
    assert(h@ =~= unsummed);
    let c = checksum(&h, 5);
    write_u16(&mut h, 10, c);
    h
}

pub fn pseudo_header_bytes(src: [u8; 4], dst: [u8; 4], proto: u8, len: u16) -> (r: Vec<u8>)
    ensures
        r@ == pseudo_header(src, dst, proto, len),
{
    let mut p: Vec<u8> = Vec::new();
    push_ip(&mut p, src);
    push_ip(&mut p, dst);
    p.push(0u8);
    p.push(proto);
    push_u16(&mut p, len);
    assert(p@ =~= pseudo_header(src, dst, proto, len));
    p
}

} // verus!
