//! Sizes in bytes, as the `size` crate holds and writes them.

use vstd::prelude::*;

verus! {

/// The bytes that `size::Size::from_bytes` keeps of a number of bytes
/// (the number passes through a 64-bit float on its way in).
pub uninterp spec fn size_bytes(bytes: int) -> int;

/// How `size::Size` writes a size of the given bytes (e.g. `4 GiB`).
pub uninterp spec fn size_text(bytes: int) -> Seq<char>;

/// `size::Size::from_bytes(bytes).bytes()` for a `u64`. The crate converts
/// the number to a 64-bit float and that to `i64`, so the number is kept
/// exactly where the float holds it (up to 2^53), and the result is never
/// negative; above that, what it is rounded to is not stated.
#[verifier::external_body]
pub fn size_from_u64(bytes: u64) -> (r: i64)
    ensures
        r == size_bytes(bytes as int),
        bytes <= 0x20_0000_0000_0000 ==> r == bytes,
        r >= 0,
{
    size::Size::from_bytes(bytes).bytes()
}

/// `size::Size::from_bytes(bytes).bytes()` for an `i64`: the number is kept
/// exactly where a 64-bit float holds it (magnitude up to 2^53); beyond
/// that, what it is rounded to is not stated.
#[verifier::external_body]
pub fn size_from_i64(bytes: i64) -> (r: i64)
    ensures
        r == size_bytes(bytes as int),
        -0x20_0000_0000_0000 <= bytes <= 0x20_0000_0000_0000 ==> r == bytes,
{
    size::Size::from_bytes(bytes).bytes()
}

/// The text that `size::Size` displays for a size of exactly `bytes`
/// bytes (`Size::from_const` keeps them as they are). The format itself is
/// the crate's and is only named here.
#[verifier::external_body]
pub fn size_to_string(bytes: i64) -> (r: String)
    ensures
        r@ == size_text(bytes as int),
{
    size::Size::from_const(bytes).to_string()
}

} // verus!
