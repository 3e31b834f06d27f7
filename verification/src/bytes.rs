//! Two-byte integers on the wire, and whole-slice helpers.

use vstd::prelude::*;
use vstd::slice::slice_to_vec;

verus! {

/// The two bytes of `n`, the less significant first.
pub open spec fn le_bytes(n: u16) -> Seq<u8> {
    seq![(n % 256) as u8, (n / 256) as u8]
}

/// The two bytes of `n`, the more significant first.
pub open spec fn be_bytes(n: u16) -> Seq<u8> {
    seq![(n / 256) as u8, (n % 256) as u8]
}

/// The number whose more significant byte is `high`.
pub open spec fn from_be(high: u8, low: u8) -> u16 {
    (high * 256 + low) as u16
}

/// Reading back the big-endian bytes of a number gives the number.
pub proof fn law_be_round_trip(n: u16)
    ensures
        from_be(be_bytes(n)[0], be_bytes(n)[1]) == n,
{
}

/// Writing a number that was read gives the bytes it was read from.
pub proof fn law_be_reads_all_bytes(high: u8, low: u8)
    ensures
        be_bytes(from_be(high, low)) == seq![high, low],
{
}

/// Appends the big-endian bytes of `n` to `out`.
pub(crate) fn push_be(out: &mut Vec<u8>, n: u16)
    ensures
        final(out)@ == old(out)@ + be_bytes(n),
{
    out.push((n / 256) as u8);
    out.push((n % 256) as u8);
    assert(out@ == old(out)@ + be_bytes(n));
}

/// Appends the little-endian bytes of `n` to `out`.
pub(crate) fn push_le(out: &mut Vec<u8>, n: u16)
    ensures
        final(out)@ == old(out)@ + le_bytes(n),
{
    out.push((n % 256) as u8);
    out.push((n / 256) as u8);
    assert(out@ == old(out)@ + le_bytes(n));
}

/// The number whose big-endian bytes are `high` and `low`.
pub(crate) fn read_be(high: u8, low: u8) -> (n: u16)
    ensures
        n == from_be(high, low),
{
    high as u16 * 256 + low as u16
}

/// Appends all of `tail` to `out`.
pub(crate) fn push_all(out: &mut Vec<u8>, tail: &[u8])
    ensures
        final(out)@ == old(out)@ + tail@,
{
    let mut copy = slice_to_vec(tail);
    out.append(&mut copy);
}

/// A copy of some bytes.
pub(crate) fn copy_bytes(bytes: &Vec<u8>) -> (copy: Vec<u8>)
    ensures
        copy@ == bytes@,
{
    slice_to_vec(bytes.as_slice())
}

/// The two bytes of a number, weighed by their places, give the number: the
/// first byte weighs more in big-endian order and less in little-endian order.
pub proof fn law_bytes_weigh_their_places(n: u16)
    ensures
        be_bytes(n).len() == 2,
        be_bytes(n)[0] * 256 + be_bytes(n)[1] == n,
        le_bytes(n).len() == 2,
        le_bytes(n)[0] + le_bytes(n)[1] * 256 == n,
{
}

/// A number that was read weighs its first byte more.
pub proof fn law_read_number_weighs_its_bytes(high: u8, low: u8)
    ensures
        from_be(high, low) == high * 256 + low,
{
}

} // verus!
