//! Trusted boundary to the cryptographic and address-derivation routines of
//! outside crates.
//!
//! Each wrapper's contract states what the outside call returns; everything
//! downstream of these contracts is verified.
use vstd::prelude::*;
use vstd::string::StringSliceAdditionalSpecFns;

verus! {

/// The Keccak-256 digest of a byte sequence.
pub uninterp spec fn keccak256_of(data: Seq<u8>) -> Seq<u8>;

/// Relies on `sha3::Keccak256` through the `Digest` trait: the digest is 32
/// bytes and depends on the input bytes alone.
#[verifier::external_body]
pub fn keccak256(data: &Vec<u8>) -> (r: [u8; 32])
    ensures
        r@ == keccak256_of(data@),
        r@.len() == 32,
{
    let digest = <sha3::Keccak256 as sha3::Digest>::digest(data.as_slice());
    let mut out = [0u8; 32];
    out.copy_from_slice(&digest);
    out
}

/// Whether a byte is the ASCII code of a hexadecimal digit.
pub open spec fn spec_is_hex_digit(b: u8) -> bool {
    ||| 48 <= b <= 57
    ||| 65 <= b <= 70
    ||| 97 <= b <= 102
}

/// The value of an ASCII hexadecimal digit.
pub open spec fn spec_hex_val(b: u8) -> u8
    recommends
        spec_is_hex_digit(b),
{
    if 48 <= b <= 57 {
        (b - 48) as u8
    } else if 65 <= b <= 70 {
        (b - 55) as u8
    } else {
        (b - 87) as u8
    }
}

/// Whether a byte sequence is well-formed hexadecimal text: even length,
/// every byte a hex digit.
pub open spec fn spec_is_hex(s: Seq<u8>) -> bool {
    &&& s.len() % 2 == 0
    &&& forall|i: int| 0 <= i < s.len() ==> spec_is_hex_digit(#[trigger] s[i])
}

/// The bytes denoted by well-formed hexadecimal text, two digits per byte.
pub open spec fn spec_hex_decode(s: Seq<u8>) -> Seq<u8>
    recommends
        spec_is_hex(s),
{
    Seq::new(s.len() / 2, |i: int| (spec_hex_val(s[2 * i]) * 16 + spec_hex_val(s[2 * i + 1])) as u8)
}

/// Relies on `hex::decode`: each pair of hex digits becomes one byte; an odd
/// length or a byte outside `0-9 A-F a-f` is rejected.
#[verifier::external_body]
pub fn hex_decode(s: &str) -> (r: Option<Vec<u8>>)
    ensures
        r is Some <==> spec_is_hex(s.spec_bytes()),
        r matches Some(v) ==> v@ == spec_hex_decode(s.spec_bytes()),
{
    hex::decode(s).ok()
}

/// The canonical derived address and bump for the given seeds under the
/// given program id, or nothing when the seeds are unusable or no bump
/// yields a valid address.
pub uninterp spec fn spec_find_program_address(seeds: Seq<Seq<u8>>, program_id: Seq<u8>) -> Option<
    (Seq<u8>, u8),
>;

/// Relies on `solana_program::pubkey::Pubkey::try_find_program_address`: the
/// derived address and bump depend on the seeds and the program id alone.
#[verifier::external_body]
pub fn find_program_address(seeds: &Vec<Vec<u8>>, program_id: &[u8; 32]) -> (r: Option<
    ([u8; 32], u8),
>)
    ensures
        r matches Some(p) ==> spec_find_program_address(seeds.deep_view(), program_id@) == Some(
            (p.0@, p.1),
        ),
        r is None ==> spec_find_program_address(seeds.deep_view(), program_id@) is None,
{
    let seed_slices: Vec<&[u8]> = seeds.iter().map(|s| s.as_slice()).collect();
    let pid = solana_program::pubkey::Pubkey::new_from_array(*program_id);
    solana_program::pubkey::Pubkey::try_find_program_address(&seed_slices, &pid).map(
        |p: (solana_program::pubkey::Pubkey, u8)| (p.0.to_bytes(), p.1),
    )
}

} // verus!
