//! BLAKE3 digests.

use vstd::prelude::*;

verus! {

/// The BLAKE3 digest of `data` in hexadecimal.
pub uninterp spec fn blake3_hex(data: Seq<u8>) -> Seq<char>;

/// Whether `c` is a lowercase hexadecimal digit.
pub open spec fn hex_digit(c: char) -> bool {
    ('0' <= c <= '9') || ('a' <= c <= 'f')
}

/// `blake3::hash`, shown by `Hash::to_hex`. The digest is a function of the
/// bytes alone, named [`blake3_hex`]; it has 32 bytes, so its text has 64
/// lowercase hexadecimal digits.
#[verifier::external_body]
pub(crate) fn hash_hex(data: &[u8]) -> (hex: String)
    ensures
        hex@ == blake3_hex(data@),
        hex@.len() == 64,
        forall|i: int| 0 <= i < hex@.len() ==> hex_digit(#[trigger] hex@[i]),
{
    blake3::hash(data).to_hex().to_string()
}

} // verus!
