//! Fixed-width unsigned integers as a reply carries them: least significant
//! byte first.

use byteorder::{LittleEndian, ReadBytesExt};
use vstd::prelude::*;

verus! {

/// The 32-bit number spelled by the first four bytes of `bytes`, if there are
/// that many.
pub open spec fn le_u32(bytes: Seq<u8>) -> Option<u32> {
    if bytes.len() < 4 {
        None
    } else {
        Some(
            (bytes[0] as int + bytes[1] as int * 0x100 + bytes[2] as int * 0x1_0000 + bytes[3] as int
                * 0x100_0000) as u32,
        )
    }
}

/// The 64-bit number spelled by the first eight bytes of `bytes`, if there are
/// that many.
pub open spec fn le_u64(bytes: Seq<u8>) -> Option<u64> {
    if bytes.len() < 8 {
        None
    } else {
        Some(
            (bytes[0] as int + bytes[1] as int * 0x100 + bytes[2] as int * 0x1_0000 + bytes[3] as int
                * 0x100_0000 + bytes[4] as int * 0x1_0000_0000 + bytes[5] as int * 0x100_0000_0000
                + bytes[6] as int * 0x1_0000_0000_0000 + bytes[7] as int * 0x100_0000_0000_0000) as u64,
        )
    }
}

/// Calls `byteorder::ReadBytesExt::read_u32::<LittleEndian>` on the slice.
/// Trusted: the read fails exactly when fewer than four bytes are there, and
/// otherwise gives the little-endian value of the first four.
#[verifier::external_body]
pub(crate) fn read_u32_le(bytes: &[u8]) -> (r: Option<u32>)
    ensures
        r == le_u32(bytes@),
{
    let mut reader = bytes;
    reader.read_u32::<LittleEndian>().ok()
}

/// Calls `byteorder::ReadBytesExt::read_u64::<LittleEndian>` on the slice.
/// Trusted: the read fails exactly when fewer than eight bytes are there, and
/// otherwise gives the little-endian value of the first eight.
#[verifier::external_body]
pub(crate) fn read_u64_le(bytes: &[u8]) -> (r: Option<u64>)
    ensures
        r == le_u64(bytes@),
{
    let mut reader = bytes;
    reader.read_u64::<LittleEndian>().ok()
}

/// Whether two byte strings are equal.
pub fn bytes_equal(a: &[u8], b: &[u8]) -> (same: bool)
    ensures
        same == (a@ == b@),
{
    if a.len() != b.len() {
        return false;
    }
    let mut i: usize = 0;
    while i < a.len()
        invariant
            a@.len() == b@.len(),
            i <= a@.len(),
            forall|k: int| 0 <= k < i ==> a@[k] == b@[k],
        decreases a@.len() - i,
    {
        if a[i] != b[i] {
            return false;
        }
        i += 1;
    }
    assert(a@ =~= b@);
    true
}

} // verus!
