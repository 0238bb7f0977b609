use vstd::prelude::*;
use crate::frames::{
    checksum_word_ok, ethernet_header, ipv4_header, ipv4_header_bytes, ipv4_header_unsummed,
    lemma_stored_checksum_ok, pseudo_header, pseudo_header_bytes, push_ethernet_header, with_word,
    ETHERTYPE_IPV4, ETH_LEN, IPV4_LEN, PROTO_TCP, TCP_LEN, TCP_WINDOW,
};
use crate::random::{random_ttl, random_u16, random_u32};
use crate::scanner_enums::{Mode, PortStatus, TCP_ACK, TCP_RST, TCP_SYN};
use crate::wire::{
    be16_at, be16_bytes, be32_bytes, checksum, internet_checksum, push_bytes, push_u16, push_u32,
    read_u16, write_u16,
};

verus! {

/// A 20-byte TCP header (data offset 5, acknowledgement 0) with a zero checksum.
pub open spec fn tcp_header_unsummed(sport: u16, dport: u16, seq: u32, flags: u8) -> Seq<u8> {
    be16_bytes(sport) + be16_bytes(dport) + be32_bytes(seq) + be32_bytes(0) + seq![0x50u8, flags]
        + be16_bytes(TCP_WINDOW) + seq![0u8, 0u8, 0u8, 0u8]
}

/// The TCP header with its checksum over the pseudo-header and the segment.
pub open spec fn tcp_header(
    src_ip: [u8; 4],
    dst_ip: [u8; 4],
    sport: u16,
    dport: u16,
    seq: u32,
    flags: u8,
) -> Seq<u8> {
    let t = tcp_header_unsummed(sport, dport, seq, flags);
    with_word(t, 16, internet_checksum(pseudo_header(src_ip, dst_ip, PROTO_TCP, 20) + t, 14))
}

/// Ethernet + IPv4 + TCP, 54 bytes.
pub open spec fn tcp_frame(
    src_mac: [u8; 6],
    dst_mac: [u8; 6],
    src_ip: [u8; 4],
    dst_ip: [u8; 4],
    sport: u16,
    dport: u16,
    flags: u8,
    ttl: u8,
    ident: u16,
    seq: u32,
) -> Seq<u8> {
    ethernet_header(dst_mac, src_mac, ETHERTYPE_IPV4) + ipv4_header(
        40,
        ident,
        ttl,
        PROTO_TCP,
        src_ip,
        dst_ip,
    ) + tcp_header(src_ip, dst_ip, sport, dport, seq, flags)
}

/// A TCP frame whose TTL lies in `32..128`, for some identification and sequence number.
pub open spec fn is_tcp_probe(
    f: Seq<u8>,
    src_mac: [u8; 6],
    dst_mac: [u8; 6],
    src_ip: [u8; 4],
    dst_ip: [u8; 4],
    sport: u16,
    dport: u16,
    flags: u8,
) -> bool {
    exists|ttl: u8, ident: u16, seq: u32|
        32 <= ttl < 128 && f == tcp_frame(
            src_mac,
            dst_mac,
            src_ip,
            dst_ip,
            sport,
            dport,
            flags,
            ttl,
            ident,
            seq,
        )
}

pub fn tcp_header_bytes(
    src_ip: [u8; 4],
    dst_ip: [u8; 4],
    sport: u16,
    dport: u16,
    seq: u32,
    flags: u8,
) -> (r: Vec<u8>)
    ensures
        r@ == tcp_header(src_ip, dst_ip, sport, dport, seq, flags),
{
    let mut t: Vec<u8> = Vec::new();
    push_u16(&mut t, sport);
    push_u16(&mut t, dport);
    push_u32(&mut t, seq);
    push_u32(&mut t, 0);
    t.push(0x50u8);
    t.push(flags);
    push_u16(&mut t, TCP_WINDOW);
    t.push(0u8);
    t.push(0u8);
    t.push(0u8);
    t.push(0u8);
    assert(t@ =~= tcp_header_unsummed(sport, dport, seq, flags));
    let mut covered = pseudo_header_bytes(src_ip, dst_ip, PROTO_TCP, 20);
    push_bytes(&mut covered, &t);
    let c = checksum(&covered, 14);
    write_u16(&mut t, 16, c);
    t
}

/// Builds the TCP frame with the given TTL, identification and sequence number.
pub fn build_tcp_frame(
    src_mac: [u8; 6],
    dst_mac: [u8; 6],
    src_ip: [u8; 4],
    dst_ip: [u8; 4],
    sport: u16,
    dport: u16,
    flags: u8,
    ttl: u8,
    ident: u16,
    seq: u32,
) -> (r: Vec<u8>)
    ensures
        r@ == tcp_frame(src_mac, dst_mac, src_ip, dst_ip, sport, dport, flags, ttl, ident, seq),
{
    let mut f: Vec<u8> = Vec::new();
    push_ethernet_header(&mut f, dst_mac, src_mac, ETHERTYPE_IPV4);
    let ip = ipv4_header_bytes(40, ident, ttl, PROTO_TCP, src_ip, dst_ip);
    push_bytes(&mut f, &ip);
    let t = tcp_header_bytes(src_ip, dst_ip, sport, dport, seq, flags);
    push_bytes(&mut f, &t);
    assert(f@ =~= tcp_frame(src_mac, dst_mac, src_ip, dst_ip, sport, dport, flags, ttl, ident, seq));
    f
}

/// Builds a TCP probe with a fresh TTL in `32..128`, identification and sequence number.
pub fn create_tcp_frame(
    src_ip: [u8; 4],
    src_mac: [u8; 6],
    src_port: u16,
    dst_ip: [u8; 4],
    dst_mac: [u8; 6],
    dst_port: u16,
    flags: u8,
) -> (r: Vec<u8>)
    ensures
        is_tcp_probe(r@, src_mac, dst_mac, src_ip, dst_ip, src_port, dst_port, flags),
{
    let ttl = random_ttl();
    let ident = random_u16();
    let seq = random_u32();
    build_tcp_frame(src_mac, dst_mac, src_ip, dst_ip, src_port, dst_port, flags, ttl, ident, seq)
}

/// Why a frame could not be written.
#[derive(Debug, Clone, Copy, PartialEq, Eq, Structural)]
pub enum FrameError {
    BufferTooShort,
}

/// Writes a TCP probe into the first 54 bytes of `buffer`, leaving the rest as it
/// was; fails, changing nothing, when the buffer is shorter than that.
pub fn create_tcp_packet(
    buffer: &mut Vec<u8>,
    src_mac: [u8; 6],
    dst_mac: [u8; 6],
    src_ip: [u8; 4],
    dst_ip: [u8; 4],
    src_port: u16,
    dst_port: u16,
    flags: u8,
) -> (r: Result<(), FrameError>)
    ensures
        r is Ok <==> old(buffer)@.len() >= ETH_LEN + IPV4_LEN + TCP_LEN,
        r is Err ==> r == Err::<(), FrameError>(FrameError::BufferTooShort) && final(buffer)@ == old(
            buffer,
        )@,
        r is Ok ==> final(buffer)@.len() == old(buffer)@.len() && is_tcp_probe(
            final(buffer)@.subrange(0, 54),
            src_mac,
            dst_mac,
            src_ip,
            dst_ip,
            src_port,
            dst_port,
            flags,
        ) && final(buffer)@.subrange(54, old(buffer)@.len() as int) == old(buffer)@.subrange(
            54,
            old(buffer)@.len() as int,
        ),
{
    if buffer.len() < ETH_LEN + IPV4_LEN + TCP_LEN {
        return Err(FrameError::BufferTooShort);
    }
    let f = create_tcp_frame(src_ip, src_mac, src_port, dst_ip, dst_mac, dst_port, flags);
    let ghost n = buffer@.len();
    let mut i: usize = 0;
    while i < 54
        invariant
            0 <= i <= 54,
            f@.len() == 54,
            buffer@.len() == n,
            n >= 54,
            forall|j: int| 0 <= j < i ==> buffer@[j] == f@[j],
            forall|j: int| i <= j < n ==> buffer@[j] == old(buffer)@[j],
        decreases 54 - i,
    {
        buffer.set(i, f[i]);
        i += 1;
    }
    assert(buffer@.subrange(0, 54) =~= f@);
    assert(buffer@.subrange(54, n as int) =~= old(buffer)@.subrange(54, n as int));
    Ok(())
}

/// SYN and ACK together mean open; RST means closed; anything else says nothing.
pub open spec fn tcp_flags_status(flags: u8) -> Option<PortStatus> {
    if flags & TCP_SYN != 0 && flags & TCP_ACK != 0 {
        Some(PortStatus::Open)
    } else if flags & TCP_RST != 0 {
        Some(PortStatus::Closed)
    } else {
        None
    }
}

/// A reply segment seen by the listener: `(our port, target port, status)`,
/// taken from a segment of at least 20 bytes, outside connect mode.
pub open spec fn tcp_reply(seg: Seq<u8>, mode: Mode) -> Option<(u16, u16, PortStatus)> {
    if mode == Mode::Tcp || seg.len() < 20 {
        None
    } else {
        match tcp_flags_status(seg[13]) {
            Some(st) => Some((be16_at(seg, 2), be16_at(seg, 0), st)),
            None => None,
        }
    }
}

/// Source port, destination port and flags of an Ethernet + IPv4 (no options) + TCP frame.
pub open spec fn tcp_frame_fields(f: Seq<u8>) -> Option<(u16, u16, u8)> {
    if f.len() >= 54 && be16_at(f, 12) == ETHERTYPE_IPV4 && f[14] == 0x45 && f[23] == PROTO_TCP {
        Some((be16_at(f, 34), be16_at(f, 36), f[47]))
    } else {
        None
    }
}

/// Classifies a reply by its flags.
pub fn parse_tcp_status(flags: u8) -> (r: Option<PortStatus>)
    ensures
        r == tcp_flags_status(flags),
{
    if flags & TCP_SYN != 0 && flags & TCP_ACK != 0 {
        Some(PortStatus::Open)
    } else if flags & TCP_RST != 0 {
        Some(PortStatus::Closed)
    } else {
        None
    }
}

/// Reads the reply segment that starts at `data[off]`.
pub fn tcp_reply_at(data: &[u8], off: usize, mode: Mode) -> (r: Option<(u16, u16, PortStatus)>)
    requires
        off <= data@.len(),
    ensures
        r == tcp_reply(data@.subrange(off as int, data@.len() as int), mode),
{
    let ghost seg = data@.subrange(off as int, data@.len() as int);
    if matches!(mode, Mode::Tcp) || data.len() - off < 20 {
        return None;
    }
    match parse_tcp_status(data[off + 13]) {
        Some(st) => {
            let ours = read_u16(data, off + 2);
            let theirs = read_u16(data, off);
            assert(ours == be16_at(seg, 2));
            assert(theirs == be16_at(seg, 0));
            Some((ours, theirs, st))
        },
        None => None,
    }
}

/// Reads a TCP reply segment: `(our port, target port, status)`.
pub fn parse_tcp_packet(segment: &[u8], mode: Mode) -> (r: Option<(u16, u16, PortStatus)>)
    ensures
        r == tcp_reply(segment@, mode),
{
    assert(segment@.subrange(0, segment@.len() as int) =~= segment@);
    tcp_reply_at(segment, 0, mode)
}

/// Reads source port, destination port and flags back out of a TCP frame.
pub fn parse_tcp_frame(frame: &[u8]) -> (r: Option<(u16, u16, u8)>)
    ensures
        r == tcp_frame_fields(frame@),
{
    if frame.len() >= 54 && read_u16(frame, 12) == ETHERTYPE_IPV4 && frame[14] == 0x45
        && frame[23] == PROTO_TCP {
        Some((read_u16(frame, 34), read_u16(frame, 36), frame[47]))
    } else {
        None
    }
}

/// Parsing a frame built by the TCP builder gives back its source port,
/// destination port and flags byte unchanged.
pub proof fn lemma_tcp_frame_round_trip(
    src_mac: [u8; 6],
    dst_mac: [u8; 6],
    src_ip: [u8; 4],
    dst_ip: [u8; 4],
    sport: u16,
    dport: u16,
    flags: u8,
    ttl: u8,
    ident: u16,
    seq: u32,
)
    ensures
        tcp_frame_fields(
            tcp_frame(src_mac, dst_mac, src_ip, dst_ip, sport, dport, flags, ttl, ident, seq),
        ) == Some((sport, dport, flags)),
{
    let f = tcp_frame(src_mac, dst_mac, src_ip, dst_ip, sport, dport, flags, ttl, ident, seq);
    let eth = ethernet_header(dst_mac, src_mac, ETHERTYPE_IPV4);
    let ip = ipv4_header(40, ident, ttl, PROTO_TCP, src_ip, dst_ip);
    let t = tcp_header(src_ip, dst_ip, sport, dport, seq, flags);
    assert(f == eth + ip + t);
    assert(f.len() == 54);
    assert(f[12] == eth[12] && f[13] == eth[13]);
    assert(f[14] == ip[0] && f[23] == ip[9]);
    assert(f[34] == t[0] && f[35] == t[1] && f[36] == t[2] && f[37] == t[3] && f[47] == t[13]);
}

/// Every TCP frame built here is exactly Ethernet + IPv4 + TCP long, declares that
/// IPv4 + TCP length in its IPv4 header, and carries valid IPv4 and TCP checksums.
pub proof fn lemma_tcp_frame_valid(
    src_mac: [u8; 6],
    dst_mac: [u8; 6],
    src_ip: [u8; 4],
    dst_ip: [u8; 4],
    sport: u16,
    dport: u16,
    flags: u8,
    ttl: u8,
    ident: u16,
    seq: u32,
)
    ensures
        ({
            let f = tcp_frame(src_mac, dst_mac, src_ip, dst_ip, sport, dport, flags, ttl, ident, seq);
            &&& f.len() == ETH_LEN + IPV4_LEN + TCP_LEN
            &&& be16_at(f, 16) == IPV4_LEN + TCP_LEN
            &&& checksum_word_ok(f.subrange(14, 34), 5)
            &&& checksum_word_ok(
                pseudo_header(src_ip, dst_ip, PROTO_TCP, 20) + f.subrange(34, 54),
                14,
            )
        }),
{
    let f = tcp_frame(src_mac, dst_mac, src_ip, dst_ip, sport, dport, flags, ttl, ident, seq);
    let eth = ethernet_header(dst_mac, src_mac, ETHERTYPE_IPV4);
    let iu = ipv4_header_unsummed(40, ident, ttl, PROTO_TCP, src_ip, dst_ip);
    let ip = ipv4_header(40, ident, ttl, PROTO_TCP, src_ip, dst_ip);
    let p = pseudo_header(src_ip, dst_ip, PROTO_TCP, 20);
    let tu = tcp_header_unsummed(sport, dport, seq, flags);
    let t = tcp_header(src_ip, dst_ip, sport, dport, seq, flags);
    assert(f.subrange(14, 34) =~= ip);
    assert(f.subrange(34, 54) =~= t);
    lemma_stored_checksum_ok(iu, 5);
    assert(p + t =~= with_word(p + tu, 28, internet_checksum(p + tu, 14)));
    lemma_stored_checksum_ok(p + tu, 14);
    assert(f[16] == ip[2] && f[17] == ip[3]);
}

} // verus!
