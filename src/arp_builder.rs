use vstd::prelude::*;
use crate::frames::{
    ethernet_header, ip_bytes, mac_bytes, push_ethernet_header, push_ip, push_mac, ARP_LEN,
    BROADCAST_MAC, ETHERTYPE_ARP, ETHERTYPE_IPV4, ETH_LEN,
};
use crate::wire::{be16_at, be16_bytes, push_u16, read_u16};

verus! {

pub const ARP_REQUEST: u16 = 1;
pub const ARP_REPLY: u16 = 2;
pub const ARP_HW_ETHERNET: u16 = 1;
pub const ZERO_MAC: [u8; 6] = [0, 0, 0, 0, 0, 0];

/// A 28-byte ARP message for Ethernet and IPv4.
pub open spec fn arp_body(op: u16, sha: [u8; 6], spa: [u8; 4], tha: [u8; 6], tpa: [u8; 4]) -> Seq<u8> {
    be16_bytes(ARP_HW_ETHERNET) + be16_bytes(ETHERTYPE_IPV4) + seq![6u8, 4u8] + be16_bytes(op)
        + mac_bytes(sha) + ip_bytes(spa) + mac_bytes(tha) + ip_bytes(tpa)
}

/// A broadcast request asking who holds `dst_ip`.
pub open spec fn arp_request_frame(src_ip: [u8; 4], src_mac: [u8; 6], dst_ip: [u8; 4]) -> Seq<u8> {
    ethernet_header(BROADCAST_MAC, src_mac, ETHERTYPE_ARP) + arp_body(
        ARP_REQUEST,
        src_mac,
        src_ip,
        ZERO_MAC,
        dst_ip,
    )
}

/// A reply telling `dst_mac` that `src_ip` is at `src_mac`.
pub open spec fn arp_response_frame(
    src_ip: [u8; 4],
    src_mac: [u8; 6],
    dst_ip: [u8; 4],
    dst_mac: [u8; 6],
) -> Seq<u8> {
    ethernet_header(dst_mac, src_mac, ETHERTYPE_ARP) + arp_body(
        ARP_REPLY,
        src_mac,
        src_ip,
        dst_mac,
        dst_ip,
    )
}

pub open spec fn mac_at(s: Seq<u8>, i: int) -> [u8; 6] {
    [s[i], s[i + 1], s[i + 2], s[i + 3], s[i + 4], s[i + 5]]
}

pub open spec fn ip_at(s: Seq<u8>, i: int) -> [u8; 4] {
    [s[i], s[i + 1], s[i + 2], s[i + 3]]
}

/// The sender hardware address of an ARP reply from `peer_ip` to `our_ip` at
/// `our_mac`; nothing for any other frame.
pub open spec fn arp_reply_sender(f: Seq<u8>, our_ip: [u8; 4], our_mac: [u8; 6], peer_ip: [u8; 4]) -> Option<[u8; 6]> {
    if f.len() >= ETH_LEN + ARP_LEN && be16_at(f, 12) == ETHERTYPE_ARP && be16_at(f, 20) == ARP_REPLY
        && ip_at(f, 28) == peer_ip && ip_at(f, 38) == our_ip && mac_at(f, 32) == our_mac {
        Some(mac_at(f, 22))
    } else {
        None
    }
}

fn arp_body_into(f: &mut Vec<u8>, op: u16, sha: [u8; 6], spa: [u8; 4], tha: [u8; 6], tpa: [u8; 4])
    ensures
        final(f)@ == old(f)@ + arp_body(op, sha, spa, tha, tpa),
{
    push_u16(f, ARP_HW_ETHERNET);
    push_u16(f, ETHERTYPE_IPV4);
    f.push(6u8);
    f.push(4u8);
    push_u16(f, op);
    push_mac(f, sha);
    push_ip(f, spa);
    push_mac(f, tha);
    push_ip(f, tpa);
    assert(final(f)@ =~= old(f)@ + arp_body(op, sha, spa, tha, tpa));
}

/// Builds the broadcast ARP request for `dst_ip`.
pub fn create_arp_request_packet(src_ip: [u8; 4], src_mac: [u8; 6], dst_ip: [u8; 4]) -> (r: Vec<u8>)
    ensures
        r@ == arp_request_frame(src_ip, src_mac, dst_ip),
        r@.len() == ETH_LEN + ARP_LEN,
{
    let mut f: Vec<u8> = Vec::new();
    push_ethernet_header(&mut f, BROADCAST_MAC, src_mac, ETHERTYPE_ARP);
    arp_body_into(&mut f, ARP_REQUEST, src_mac, src_ip, ZERO_MAC, dst_ip);
    assert(f@ =~= arp_request_frame(src_ip, src_mac, dst_ip));
    f
}

/// Builds the ARP reply announcing `src_ip` at `src_mac` to `dst_ip` at `dst_mac`.
pub fn create_arp_response_packet(
    src_ip: [u8; 4],
    src_mac: [u8; 6],
    dst_ip: [u8; 4],
    dst_mac: [u8; 6],
) -> (r: Vec<u8>)
    ensures
        r@ == arp_response_frame(src_ip, src_mac, dst_ip, dst_mac),
        r@.len() == ETH_LEN + ARP_LEN,
{
    let mut f: Vec<u8> = Vec::new();
    push_ethernet_header(&mut f, dst_mac, src_mac, ETHERTYPE_ARP);
    arp_body_into(&mut f, ARP_REPLY, src_mac, src_ip, dst_mac, dst_ip);
    assert(f@ =~= arp_response_frame(src_ip, src_mac, dst_ip, dst_mac));
    f
}

fn read_mac(s: &[u8], i: usize) -> (r: [u8; 6])
    requires
        i + 6 <= s@.len(),
    ensures
        r == mac_at(s@, i as int),
{
    [s[i], s[i + 1], s[i + 2], s[i + 3], s[i + 4], s[i + 5]]
}

fn read_ip(s: &[u8], i: usize) -> (r: [u8; 4])
    requires
        i + 4 <= s@.len(),
    ensures
        r == ip_at(s@, i as int),
{
    [s[i], s[i + 1], s[i + 2], s[i + 3]]
}

fn same_ip(a: [u8; 4], b: [u8; 4]) -> (r: bool)
    ensures
        r == (a == b),
{
    let r = a[0] == b[0] && a[1] == b[1] && a[2] == b[2] && a[3] == b[3];
    proof {
        if r {
            assert(a =~= b);
        }
    }
    r
}

fn same_mac(a: [u8; 6], b: [u8; 6]) -> (r: bool)
    ensures
        r == (a == b),
{
    let r = a[0] == b[0] && a[1] == b[1] && a[2] == b[2] && a[3] == b[3] && a[4] == b[4] && a[5]
        == b[5];
    proof {
        if r {
            assert(a =~= b);
        }
    }
    r
}

/// The MAC address that `peer_ip` announced in an ARP reply sent to `src_ip` at
/// `src_mac`; `None` for any other frame.
pub fn parse_arp_response(packet: &[u8], src_ip: [u8; 4], src_mac: [u8; 6], dst_ip: [u8; 4]) -> (r: Option<[u8; 6]>)
    ensures
        r == arp_reply_sender(packet@, src_ip, src_mac, dst_ip),
{
    if packet.len() < ETH_LEN + ARP_LEN || read_u16(packet, 12) != ETHERTYPE_ARP || read_u16(packet, 20)
        != ARP_REPLY {
        return None;
    }
    if same_ip(read_ip(packet, 28), dst_ip) && same_ip(read_ip(packet, 38), src_ip) && same_mac(
        read_mac(packet, 32),
        src_mac,
    ) {
        Some(read_mac(packet, 22))
    } else {
        None
    }
}

} // verus!
