//! The 40-bit path hash that keys every lookup table of an archive.
use vstd::prelude::*;
use vstd::string::StringSliceAdditionalSpecFns;

verus! {

/// The CRC-32 (IEEE polynomial, reflected, initial and final value all ones)
/// of a byte string.
pub uninterp spec fn crc32_ieee(b: Seq<u8>) -> u32;

/// Relies on `crc::crc32::checksum_ieee`: the IEEE CRC-32 of the bytes, which
/// the crate computes as `!update(!0, ..)` and so is 0 for no bytes.
#[verifier::external_body]
fn checksum_ieee(b: &[u8]) -> (r: u32)
    ensures
        r == crc32_ieee(b@),
        b@.len() == 0 ==> r == 0,
{
    crc::crc32::checksum_ieee(b)
}

/// The hash of a path given by its UTF-8 bytes: the CRC-32 in the low 32 bits
/// and the low byte of the length in the next 8.
pub open spec fn hash40_of(b: Seq<u8>) -> u64 {
    (crc32_ieee(b) as u64) | (((b.len() as u64) & 0xff) << 32u64)
}

/// The hash by which an archive's tables know a path.
pub fn hash40(name: &str) -> (r: u64)
    ensures
        r == hash40_of(name.spec_bytes()),
        r < 0x100_0000_0000,
        name.spec_bytes().len() == 0 ==> r == 0,
{
    let bytes = name.as_bytes();
    let crc = checksum_ieee(bytes);
    let len = bytes.len() as u64;
    let r = crc as u64 | ((len & 0xff) << 32u64);
    assert(r < 0x100_0000_0000 && (len == 0 && crc == 0 ==> r == 0)) by (bit_vector)
        requires
            r == crc as u64 | ((len & 0xff) << 32u64),
    ;
    r
}

/// The hash depends on the path's characters alone: equal paths hash alike.
pub proof fn lemma_hash40_deterministic(a: &str, b: &str)
    requires
        a@ == b@,
    ensures
        hash40_of(a.spec_bytes()) == hash40_of(b.spec_bytes()),
{
}

/// The hash of the empty path carries a zero length tag: it is the CRC-32 of
/// no bytes and nothing else.
pub proof fn lemma_hash40_empty()
    ensures
        hash40_of(Seq::empty()) == crc32_ieee(Seq::empty()) as u64,
{
    let c = crc32_ieee(Seq::<u8>::empty()) as u64;
    let z: u64 = 0;
    assert((c | ((z & 0xff) << 32u64)) == c) by (bit_vector)
        requires
            z == 0,
    ;
}

} // verus!
