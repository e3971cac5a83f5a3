//! Turning an uncompressed public key into its mixed-case checksummed hex
//! address: drop the key's one-byte tag, hash the remaining 64 bytes with
//! Keccak-256, keep the low-order 20 bytes of the digest, hex-encode them,
//! and apply the checksum casing derived from a hash of the lowercase hex.

use vstd::prelude::*;
use tiny_keccak::Hasher;
use crate::text::{
    ascii_chars, ascii_to_string, is_lower_hex, is_lower_hex_byte, sub_vec, to_lower_byte,
    to_lower_bytes, to_upper_hex_byte,
};

verus! {

/// The byte is an ASCII hex character of either case.
pub open spec fn is_hex_byte(b: u8) -> bool {
    is_lower_hex_byte(b) || (65 <= b <= 70)
}

/// The ASCII byte for the hex digit `n` (lowercase), for `n < 16`.
pub open spec fn hex_digit_byte(n: u8) -> u8 {
    if n < 10 {
        (48 + n) as u8
    } else {
        (87 + n) as u8
    }
}

/// Lowercase hex encoding of a byte string: two characters per byte, high
/// nibble first.
pub open spec fn hex_ascii_of(s: Seq<u8>) -> Seq<u8> {
    Seq::new(
        2 * s.len(),
        |i: int|
            if i % 2 == 0 {
                hex_digit_byte(s[i / 2] >> 4)
            } else {
                hex_digit_byte(s[i / 2] & 15)
            },
    )
}

/// A hex encoding consists of lowercase hex characters only.
pub proof fn lemma_hex_ascii_lower(s: Seq<u8>)
    ensures
        hex_ascii_of(s).len() == 2 * s.len(),
        is_lower_hex(hex_ascii_of(s)),
{
    assert forall|i: int| 0 <= i < hex_ascii_of(s).len() implies is_lower_hex_byte(
        #[trigger] hex_ascii_of(s)[i],
    ) by {
        let b = s[i / 2];
        assert((b >> 4) < 16 && (b & 15) < 16) by (bit_vector);
    }
}

/// Digest of the 256-bit Keccak sponge (the legacy Keccak padding, not the
/// standardized SHA-3 padding), a function of the input bytes alone.
pub uninterp spec fn keccak256_of(data: Seq<u8>) -> Seq<u8>;

/// Relies on tiny_keccak's `Keccak::v256` with `update` and `finalize`: the
/// digest fills the whole 32-byte buffer and depends on the input alone.
#[verifier::external_body]
fn keccak256(data: &Vec<u8>) -> (r: Vec<u8>)
    ensures
        r@ == keccak256_of(data@),
        r@.len() == 32,
{
    let mut output = [0u8; 32];
    let mut hasher = tiny_keccak::Keccak::v256();
    hasher.update(data.as_slice());
    hasher.finalize(&mut output);
    output.to_vec()
}

/// Relies on hex::encode: two lowercase hex characters per input byte, high
/// nibble first.
#[verifier::external_body]
fn hex_encode(b: &Vec<u8>) -> (r: Vec<u8>)
    ensures
        r@ == hex_ascii_of(b@),
{
    hex::encode(b.as_slice()).into_bytes()
}

/// Mixed-case checksum encoding of a 40-character lowercase hex string, a
/// function of that string alone.
pub uninterp spec fn checksum_of(hex_addr: Seq<u8>) -> Seq<u8>;

/// Relies on eip55::checksum: for a 40-character lowercase-hex input (which
/// its validation accepts and which carries no "0x" prefix to strip), the
/// result is "0x" followed by the input's 40 characters, each either kept or
/// uppercased according to a Keccak-256 hash of the input string, so the
/// result is a function of the input alone.
#[verifier::external_body]
fn eip55_checksum(hex_addr: &Vec<u8>) -> (r: Vec<u8>)
    requires
        hex_addr@.len() == 40,
        is_lower_hex(hex_addr@),
    ensures
        r@ == checksum_of(hex_addr@),
        r@.len() == 42,
        r@[0] == 48,
        r@[1] == 120,
        forall|i: int|
            0 <= i < 40 ==> r@[i + 2] == hex_addr@[i] || r@[i + 2] == to_upper_hex_byte(
                #[trigger] hex_addr@[i],
            ),
{
    let s = std::str::from_utf8(hex_addr.as_slice()).unwrap();
    eip55::checksum(s).into_bytes()
}

/// The byte string has the shape of a checksummed address: "0x" followed by
/// exactly 40 hex characters.
pub open spec fn is_address_format(s: Seq<u8>) -> bool {
    &&& s.len() == 42
    &&& s[0] == 48
    &&& s[1] == 120
    &&& forall|i: int| 2 <= i < 42 ==> is_hex_byte(#[trigger] s[i])
}

/// Checksums a 40-character lowercase hex account string.  The result is
/// "0x" followed by the same 40 characters with the checksum's mixed casing:
/// lowercasing the result's body gives back exactly the input.
pub fn checksum_address(hex_addr: &Vec<u8>) -> (r: Vec<u8>)
    requires
        hex_addr@.len() == 40,
        is_lower_hex(hex_addr@),
    ensures
        r@ == checksum_of(hex_addr@),
        is_address_format(r@),
        forall|i: int| 0 <= i < 40 ==> to_lower_byte(#[trigger] r@[i + 2]) == hex_addr@[i],
{
    let r = eip55_checksum(hex_addr);
    proof {
        assert forall|i: int| 0 <= i < 40 implies to_lower_byte(#[trigger] r@[i + 2])
            == hex_addr@[i] && is_hex_byte(r@[i + 2]) by {
            assert(is_lower_hex_byte(hex_addr@[i]));
        }
        assert forall|i: int| 2 <= i < 42 implies is_hex_byte(#[trigger] r@[i]) by {
            assert(r@[i] == r@[(i - 2) + 2]);
            assert(is_hex_byte(r@[(i - 2) + 2]));
        }
    }
    r
}

/// Law: checksum casing survives a round trip.  Checksumming a lowercase
/// hex string, lowercasing the body of the result, and checksumming again
/// reproduces the first result exactly.
pub fn checksum_round_trip(hex_addr: &Vec<u8>) -> (r: bool)
    requires
        hex_addr@.len() == 40,
        is_lower_hex(hex_addr@),
    ensures
        r,
{
    let first = checksum_address(hex_addr);
    let body = sub_vec(&first, 2, 42);
    let lowered = to_lower_bytes(&body);
    proof {
        assert(lowered@ =~= hex_addr@);
    }
    let second = checksum_address(&lowered);
    crate::text::bytes_eq(&first, &second)
}

/// The checksummed address bytes of an uncompressed 65-byte public key.
pub open spec fn address_bytes_of(pk: Seq<u8>) -> Seq<u8> {
    checksum_of(hex_ascii_of(keccak256_of(pk.subrange(1, 65)).subrange(12, 32)))
}

/// The checksummed address of an uncompressed 65-byte public key, as text.
pub open spec fn address_of(pk: Seq<u8>) -> Seq<char> {
    ascii_chars(address_bytes_of(pk))
}

/// Derives the checksummed hex address of an uncompressed public key: hash
/// the 64 coordinate bytes with Keccak-256, keep the digest's low 20 bytes,
/// hex-encode, and apply checksum casing.  A pure function of the key:
/// equal keys always give equal addresses.
pub fn derive_address(public_key: &Vec<u8>) -> (r: String)
    requires
        public_key@.len() == 65,
    ensures
        r@ == address_of(public_key@),
        is_address_format(address_bytes_of(public_key@)),
        r@.len() == 42,
{
    let tail = sub_vec(public_key, 1, 65);
    let digest = keccak256(&tail);
    let low20 = sub_vec(&digest, 12, 32);
    let hexed = hex_encode(&low20);
    proof {
        lemma_hex_ascii_lower(low20@);
    }
    let check = checksum_address(&hexed);
    proof {
        assert(forall|i: int| 0 <= i < check@.len() ==> #[trigger] check@[i] < 128);
    }
    ascii_to_string(check)
}

/// Law: address derivation is deterministic.  Two derivations from the same
/// public key bytes give the same address text.
pub proof fn lemma_derive_address_deterministic(pk1: Seq<u8>, pk2: Seq<u8>)
    requires
        pk1 == pk2,
    ensures
        address_of(pk1) == address_of(pk2),
{
}

} // verus!
