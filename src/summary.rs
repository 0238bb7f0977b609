use vstd::prelude::*;
use crate::scanner_enums::{status_text, PortStatus};

verus! {

pub open spec fn digit_text(d: nat) -> Seq<char> {
    if d == 0 { "0"@ } else if d == 1 { "1"@ } else if d == 2 { "2"@ } else if d == 3 { "3"@ }
    else if d == 4 { "4"@ } else if d == 5 { "5"@ } else if d == 6 { "6"@ } else if d == 7 { "7"@ }
    else if d == 8 { "8"@ } else if d == 9 { "9"@ } else if d == 10 { "a"@ } else if d == 11 { "b"@ }
    else if d == 12 { "c"@ } else if d == 13 { "d"@ } else if d == 14 { "e"@ } else { "f"@ }
}

/// `n` in decimal, without leading zeros.
pub open spec fn decimal_text(n: nat) -> Seq<char>
    decreases n,
{
    if n < 10 {
        digit_text(n)
    } else {
        decimal_text(n / 10) + digit_text(n % 10)
    }
}

/// A byte as two lower-case hexadecimal digits.
pub open spec fn hex2_text(b: u8) -> Seq<char> {
    digit_text((b / 16) as nat) + digit_text((b % 16) as nat)
}

/// Dotted-decimal notation.
pub open spec fn ip_text(a: [u8; 4]) -> Seq<char> {
    decimal_text(a[0] as nat) + "."@ + decimal_text(a[1] as nat) + "."@ + decimal_text(a[2] as nat)
        + "."@ + decimal_text(a[3] as nat)
}

/// Colon-separated hexadecimal notation.
pub open spec fn mac_text(m: [u8; 6]) -> Seq<char> {
    hex2_text(m[0]) + ":"@ + hex2_text(m[1]) + ":"@ + hex2_text(m[2]) + ":"@ + hex2_text(m[3])
        + ":"@ + hex2_text(m[4]) + ":"@ + hex2_text(m[5])
}

/// `piece` written `n` times.
pub open spec fn repeat_text(piece: Seq<char>, n: nat) -> Seq<char>
    decreases n,
{
    if n == 0 {
        Seq::empty()
    } else {
        repeat_text(piece, (n - 1) as nat) + piece
    }
}

/// `t` padded on the right with spaces to `width` characters.
pub open spec fn pad_text(t: Seq<char>, width: nat) -> Seq<char> {
    if t.len() < width {
        t + repeat_text(" "@, (width - t.len()) as nat)
    } else {
        t
    }
}

/// One table row per result, in the given order.
pub open spec fn rows_text(results: Seq<(u16, PortStatus)>) -> Seq<char>
    decreases results.len(),
{
    if results.len() == 0 {
        Seq::empty()
    } else {
        let (port, st) = results.last();
        rows_text(results.drop_last()) + pad_text(decimal_text(port as nat) + "/tcp"@, 12) + " "@
            + status_text(st) + "\n"@
    }
}

/// How many results carry status `st`.
pub open spec fn count_status(results: Seq<(u16, PortStatus)>, st: PortStatus) -> nat
    decreases results.len(),
{
    if results.len() == 0 {
        0
    } else {
        count_status(results.drop_last(), st) + if results.last().1 == st {
            1nat
        } else {
            0nat
        }
    }
}

pub fn digit_str(d: u64) -> (r: &'static str)
    requires
        d < 16,
    ensures
        r@ == digit_text(d as nat),
{
    match d {
        0 => "0",
        1 => "1",
        2 => "2",
        3 => "3",
        4 => "4",
        5 => "5",
        6 => "6",
        7 => "7",
        8 => "8",
        9 => "9",
        10 => "a",
        11 => "b",
        12 => "c",
        13 => "d",
        14 => "e",
        _ => "f",
    }
}

pub fn push_decimal(s: &mut String, n: u64)
    ensures
        final(s)@ == old(s)@ + decimal_text(n as nat),
    decreases n,
{
    if n >= 10 {
        push_decimal(s, n / 10);
        s.append(digit_str(n % 10));
        assert(final(s)@ =~= old(s)@ + decimal_text(n as nat));
    } else {
        s.append(digit_str(n));
    }
}

pub fn push_hex2(s: &mut String, b: u8)
    ensures
        final(s)@ == old(s)@ + hex2_text(b),
{
    s.append(digit_str((b / 16) as u64));
    s.append(digit_str((b % 16) as u64));
    assert(final(s)@ =~= old(s)@ + hex2_text(b));
}

pub fn push_ip(s: &mut String, a: [u8; 4])
    ensures
        final(s)@ == old(s)@ + ip_text(a),
{
    let ghost start = s@;
    push_decimal(s, a[0] as u64);
    s.append(".");
    push_decimal(s, a[1] as u64);
    s.append(".");
    push_decimal(s, a[2] as u64);
    s.append(".");
    push_decimal(s, a[3] as u64);
    assert(s@ =~= start + ip_text(a));
}

pub fn push_mac(s: &mut String, m: [u8; 6])
    ensures
        final(s)@ == old(s)@ + mac_text(m),
{
    let ghost start = s@;
    push_hex2(s, m[0]);
    s.append(":");
    push_hex2(s, m[1]);
    s.append(":");
    push_hex2(s, m[2]);
    s.append(":");
    push_hex2(s, m[3]);
    s.append(":");
    push_hex2(s, m[4]);
    s.append(":");
    push_hex2(s, m[5]);
    assert(s@ =~= start + mac_text(m));
}

pub fn push_repeat(s: &mut String, piece: &str, n: usize)
    ensures
        final(s)@ == old(s)@ + repeat_text(piece@, n as nat),
{
    let mut k: usize = 0;
    while k < n
        invariant
            k <= n,
            s@ == old(s)@ + repeat_text(piece@, k as nat),
        decreases n - k,
    {
        s.append(piece);
        k += 1;
        assert(s@ =~= old(s)@ + repeat_text(piece@, k as nat));
    }
}

pub fn push_padded(s: &mut String, t: &String, width: usize)
    ensures
        final(s)@ == old(s)@ + pad_text(t@, width as nat),
{
    let len = t.as_str().unicode_len();
    s.append(t.as_str());
    if len < width {
        push_repeat(s, " ", width - len);
        assert(final(s)@ =~= old(s)@ + pad_text(t@, width as nat));
    }
}

/// The colored table rows for `results`, one per entry, in order.
pub fn push_rows(s: &mut String, results: &Vec<(u16, PortStatus)>)
    ensures
        final(s)@ == old(s)@ + rows_text(results@),
{
    let mut i: usize = 0;
    while i < results.len()
        invariant
            0 <= i <= results@.len(),
            s@ == old(s)@ + rows_text(results@.take(i as int)),
        decreases results@.len() - i,
    {
        let (port, st) = results[i];
        assert(results@.take(i + 1).drop_last() =~= results@.take(i as int));
        let mut cell = String::new();
        push_decimal(&mut cell, port as u64);
        cell.append("/tcp");
        assert(cell@ =~= decimal_text(port as nat) + "/tcp"@);
        push_padded(s, &cell, 12);
        s.append(" ");
        s.append(st.label());
        s.append("\n");
        i += 1;
        assert(s@ =~= old(s)@ + rows_text(results@.take(i as int)));
    }
    assert(results@.take(i as int) =~= results@);
}

pub fn count_of(results: &Vec<(u16, PortStatus)>, st: PortStatus) -> (r: u64)
    requires
        results@.len() <= 0x10000,
    ensures
        r == count_status(results@, st),
{
    let mut n: u64 = 0;
    let mut i: usize = 0;
    while i < results.len()
        invariant
            0 <= i <= results@.len(),
            results@.len() <= 0x10000,
            n == count_status(results@.take(i as int), st),
            n <= i,
        decreases results@.len() - i,
    {
        assert(results@.take(i + 1).drop_last() =~= results@.take(i as int));
        if results[i].1 == st {
            n += 1;
        }
        i += 1;
    }
    assert(results@.take(i as int) =~= results@);
    n
}

} // verus!
