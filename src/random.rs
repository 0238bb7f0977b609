use vstd::prelude::*;

verus! {

/// Relies on rand::random_range: a value drawn from the half-open range
/// `low..high`, which must not be empty.
#[verifier::external_body]
pub(crate) fn random_in(low: u16, high: u16) -> (r: u16)
    requires
        low < high,
    ensures
        low <= r < high,
{
    rand::random_range(low..high)
}

/// Relies on rand::random: any `u32` may come back.
#[verifier::external_body]
pub(crate) fn random_u32() -> u32 {
    rand::random::<u32>()
}

/// A fresh IPv4 time-to-live in `32..128`.
pub fn random_ttl() -> (r: u8)
    ensures
        32 <= r < 128,
{
    random_in(32, 128) as u8
}

/// A fresh 16-bit value, for IPv4 identifications and ICMP fields.
pub fn random_u16() -> u16 {
    (random_u32() % 65536) as u16
}

} // verus!
