//! The deterministic selector: a digest of week key and domain tag, and the
//! two values derived from it.

use vstd::prelude::*;
use vstd::slice::slice_to_vec;
use vstd::string::StringSliceAdditionalSpecFns;
use vstd::utf8::encode_utf8;

verus! {

/// The domain tag of the weekly regatta seed.
pub const REGATTA_TAG: &'static str = "booty-hunt-regatta";

/// The domain tag of the weekly tide omen.
pub const TIDE_TAG: &'static str = "booty-hunt-tide";

/// Entries of the omen catalog.
pub const OMEN_COUNT: usize = 7;

/// The SHA-256 digest of a byte string, as the `sha2` crate computes it.
pub uninterp spec fn sha256_digest(data: Seq<u8>) -> Seq<u8>;

/// Hashes with `sha2::Sha256::digest`. The 32 bytes are named, not described.
#[verifier::external_body]
fn sha256(data: &[u8]) -> (digest: [u8; 32])
    ensures
        digest@ == sha256_digest(data@),
{
    <sha2::Sha256 as sha2::Digest>::digest(data).into()
}

/// The digest selected by a week key under a domain tag: SHA-256 of the key's
/// bytes followed by the tag's.
pub open spec fn selection(week_key: Seq<char>, tag: Seq<char>) -> Seq<u8> {
    sha256_digest(encode_utf8(week_key) + encode_utf8(tag))
}

/// The unsigned number that eight bytes spell, most significant byte first.
pub open spec fn big_endian_u64(b: Seq<u8>) -> int {
    b[0] * 0x0100_0000_0000_0000 + b[1] * 0x0001_0000_0000_0000 + b[2] * 0x0000_0100_0000_0000
        + b[3] * 0x0000_0001_0000_0000 + b[4] * 0x0000_0000_0100_0000 + b[5]
        * 0x0000_0000_0001_0000 + b[6] * 0x0000_0000_0000_0100 + b[7]
}

/// The signed 64-bit reading of an unsigned 64-bit number.
pub open spec fn as_signed(raw: int) -> int {
    if raw >= 0x8000_0000_0000_0000 {
        raw - 0x1_0000_0000_0000_0000
    } else {
        raw
    }
}

/// The absolute value as 64 bits hold it: the least number stays as it is.
pub open spec fn wrapping_abs(v: int) -> int {
    if v == i64::MIN {
        v
    } else if v < 0 {
        -v
    } else {
        v
    }
}

/// The regatta seed that a digest gives: its first eight bytes read as a
/// signed big-endian number, made absolute.
pub open spec fn seed_of_digest(digest: Seq<u8>) -> int {
    wrapping_abs(as_signed(big_endian_u64(digest)))
}

/// The place in the omen catalog that a digest picks.
pub open spec fn omen_index_of_digest(digest: Seq<u8>) -> int {
    digest[0] as int % OMEN_COUNT as int
}

/// The regatta seed of a week.
pub open spec fn regatta_seed(week_key: Seq<char>) -> int {
    seed_of_digest(selection(week_key, REGATTA_TAG@))
}

/// The place of a week's omen in the catalog.
pub open spec fn omen_index(week_key: Seq<char>) -> int {
    omen_index_of_digest(selection(week_key, TIDE_TAG@))
}

/// Hashes a week key together with a domain tag.
pub fn select(week_key: &str, tag: &str) -> (digest: [u8; 32])
    ensures
        digest@ == selection(week_key@, tag@),
{
    let mut data = slice_to_vec(week_key.as_bytes());
    data.extend_from_slice(tag.as_bytes());
    assert(data@ =~= encode_utf8(week_key@) + encode_utf8(tag@));
    sha256(data.as_slice())
}

/// Reads the regatta seed out of a digest.
pub fn seed_from_digest(digest: &[u8; 32]) -> (seed: i64)
    ensures
        seed == seed_of_digest(digest@),
{
    let raw: u64 = (digest[0] as u64) * 0x0100_0000_0000_0000 + (digest[1] as u64)
        * 0x0001_0000_0000_0000 + (digest[2] as u64) * 0x0000_0100_0000_0000 + (digest[3] as u64)
        * 0x0000_0001_0000_0000 + (digest[4] as u64) * 0x0000_0000_0100_0000 + (digest[5] as u64)
        * 0x0000_0000_0001_0000 + (digest[6] as u64) * 0x0000_0000_0000_0100 + (digest[7] as u64);
    if raw < 0x8000_0000_0000_0000 {
        raw as i64
    } else if raw == 0x8000_0000_0000_0000 {
        i64::MIN
    } else {
        (0xFFFF_FFFF_FFFF_FFFF - raw + 1) as i64
    }
}

/// Reads the omen's place in the catalog out of a digest.
pub fn omen_index_from_digest(digest: &[u8; 32]) -> (index: usize)
    ensures
        index == omen_index_of_digest(digest@),
        index < OMEN_COUNT,
{
    (digest[0] as usize) % OMEN_COUNT
}

/// Derives the regatta seed of a week.
pub fn derive_regatta_seed(week_key: &str) -> (seed: i64)
    ensures
        seed == regatta_seed(week_key@),
{
    let digest = select(week_key, REGATTA_TAG);
    seed_from_digest(&digest)
}

/// Derives the place of a week's omen in the catalog.
pub fn derive_omen_index(week_key: &str) -> (index: usize)
    ensures
        index == omen_index(week_key@),
        index < OMEN_COUNT,
{
    let digest = select(week_key, TIDE_TAG);
    omen_index_from_digest(&digest)
}

} // verus!
