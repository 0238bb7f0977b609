use vstd::prelude::*;

verus! {

/// The two bytes of `v`, most significant first.
pub open spec fn be16_bytes(v: u16) -> Seq<u8> {
    seq![(v / 256) as u8, (v % 256) as u8]
}

/// The four bytes of `v`, most significant first.
pub open spec fn be32_bytes(v: u32) -> Seq<u8> {
    seq![(v / 0x1000000) as u8, ((v / 0x10000) % 256) as u8, ((v / 256) % 256) as u8, (v % 256) as u8]
}

/// The big-endian 16-bit value stored at `s[i]`, `s[i + 1]`.
pub open spec fn be16_at(s: Seq<u8>, i: int) -> u16 {
    (s[i] * 256 + s[i + 1]) as u16
}

/// Sum of the big-endian 16-bit words of `data` from word `i` on, leaving out word
/// `skip`; an odd last byte counts as the high byte of a word.
pub open spec fn word_sum(data: Seq<u8>, skip: int, i: int) -> nat
    decreases data.len() - 2 * i,
{
    if 2 * i + 2 <= data.len() {
        (if i == skip {
            0
        } else {
            data[2 * i] * 256 + data[2 * i + 1]
        }) as nat + word_sum(data, skip, i + 1)
    } else if 2 * i + 1 == data.len() && i != skip {
        (data[2 * i] * 256) as nat
    } else {
        0
    }
}

/// Adds the carries above 16 bits back in until the value fits in 16 bits.
pub open spec fn fold_carries(s: nat) -> nat
    decreases s,
{
    if s < 0x10000 {
        s
    } else {
        fold_carries(s / 0x10000 + s % 0x10000)
    }
}

/// The Internet checksum (one's complement of the one's complement sum) of `data`,
/// word `skip` counted as zero; an empty input gives 0.
pub open spec fn internet_checksum(data: Seq<u8>, skip: int) -> u16 {
    if data.len() == 0 {
        0
    } else {
        (0xFFFF - fold_carries(word_sum(data, skip, 0))) as u16
    }
}

/// Overwriting the skipped word leaves the sum unchanged.
pub proof fn lemma_word_sum_ignores_skipped(data: Seq<u8>, k: int, a: u8, b: u8, i: int)
    requires
        0 <= k,
        0 <= i,
        2 * k + 1 < data.len(),
    ensures
        word_sum(data.update(2 * k, a).update(2 * k + 1, b), k, i) == word_sum(
            data,
            k,
            i,
        ),
    decreases data.len() - 2 * i,
{
    let d2 = data.update(2 * k, a).update(2 * k + 1, b);
    if 2 * i + 2 <= data.len() {
        lemma_word_sum_ignores_skipped(data, k, a, b, i + 1);
        if i != k {
            assert(d2[2 * i] == data[2 * i]);
            assert(d2[2 * i + 1] == data[2 * i + 1]);
        }
    } else if 2 * i + 1 == data.len() && i != k {
        assert(d2[2 * i] == data[2 * i]);
    }
}

/// Relies on pnet::util::checksum: the Internet checksum of `data` with word
/// `skip` left out of the sum, as `internet_checksum` states it. It adds the words
/// in a `u32`, so the length is kept small enough that the sum cannot overflow.
#[verifier::external_body]
fn pnet_checksum(data: &[u8], skip: usize) -> (r: u16)
    requires
        data@.len() <= 0xFFFF,
    ensures
        r == internet_checksum(data@, skip as int),
{
    pnet::util::checksum(data, skip)
}

/// The Internet checksum of `data` with word `skip` counted as zero.
pub fn checksum(data: &Vec<u8>, skip: usize) -> (r: u16)
    requires
        data@.len() <= 0xFFFF,
    ensures
        r == internet_checksum(data@, skip as int),
{
    pnet_checksum(data.as_slice(), skip)
}

pub fn push_u16(buf: &mut Vec<u8>, v: u16)
    ensures
        final(buf)@ == old(buf)@ + be16_bytes(v),
{
    buf.push((v / 256) as u8);
    buf.push((v % 256) as u8);
    assert(final(buf)@ =~= old(buf)@ + be16_bytes(v));
}

pub fn push_u32(buf: &mut Vec<u8>, v: u32)
    ensures
        final(buf)@ == old(buf)@ + be32_bytes(v),
{
    buf.push((v / 0x1000000) as u8);
    buf.push(((v / 0x10000) % 256) as u8);
    buf.push(((v / 256) % 256) as u8);
    buf.push((v % 256) as u8);
    assert(final(buf)@ =~= old(buf)@ + be32_bytes(v));
}

pub fn push_bytes(buf: &mut Vec<u8>, bytes: &Vec<u8>)
    ensures
        final(buf)@ == old(buf)@ + bytes@,
{
    let mut i: usize = 0;
    while i < bytes.len()
        invariant
            0 <= i <= bytes@.len(),
            buf@ == old(buf)@ + bytes@.subrange(0, i as int),
        decreases bytes@.len() - i,
    {
        buf.push(bytes[i]);
        i += 1;
        assert(buf@ =~= old(buf)@ + bytes@.subrange(0, i as int));
    }
    assert(bytes@.subrange(0, i as int) =~= bytes@);
}

/// Reads the big-endian 16-bit value at `s[i]`, `s[i + 1]`.
pub fn read_u16(s: &[u8], i: usize) -> (r: u16)
    requires
        i + 1 < s@.len(),
    ensures
        r == be16_at(s@, i as int),
{
    (s[i] as u16) * 256 + (s[i + 1] as u16)
}

/// Writes `v` big-endian at `buf[i]`, `buf[i + 1]`.
pub fn write_u16(buf: &mut Vec<u8>, i: usize, v: u16)
    requires
        i + 1 < old(buf)@.len(),
    ensures
        final(buf)@ == old(buf)@.update(i as int, (v / 256) as u8).update(i + 1, (v % 256) as u8),
{
    let n = buf.len();
    assert(i + 1 < n);
    buf.set(i, (v / 256) as u8);
    buf.set(i + 1, (v % 256) as u8);
}

} // verus!
