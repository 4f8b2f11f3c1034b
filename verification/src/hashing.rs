//! The cryptographic hash primitive shared by seed derivation and the
//! commit-reveal scheme, and the hex rendering of a digest.

use sha3::Digest;
use sha3::Keccak256;
use vstd::prelude::*;

verus! {

/// The Keccak-256 digest of a byte sequence: a 32-byte value determined by
/// the input bytes alone. The digest itself is left unspecified; callers
/// reason about it only as a fixed function of the message.
pub uninterp spec fn keccak256_of(message: Seq<u8>) -> Seq<u8>;

/// Relies on `sha3::Keccak256` (through `Digest::digest`): the digest is
/// 32 bytes long and depends on the input bytes alone.
#[verifier::external_body]
pub(crate) fn keccak256(message: &[u8]) -> (digest: Vec<u8>)
    ensures
        digest@ == keccak256_of(message@),
        digest@.len() == 32,
{
    Keccak256::digest(message).to_vec()
}

/// The lowercase hex character for one nibble value.
pub open spec fn hex_digit_char(nibble: int) -> char {
    if nibble == 0 {
        '0'
    } else if nibble == 1 {
        '1'
    } else if nibble == 2 {
        '2'
    } else if nibble == 3 {
        '3'
    } else if nibble == 4 {
        '4'
    } else if nibble == 5 {
        '5'
    } else if nibble == 6 {
        '6'
    } else if nibble == 7 {
        '7'
    } else if nibble == 8 {
        '8'
    } else if nibble == 9 {
        '9'
    } else if nibble == 10 {
        'a'
    } else if nibble == 11 {
        'b'
    } else if nibble == 12 {
        'c'
    } else if nibble == 13 {
        'd'
    } else if nibble == 14 {
        'e'
    } else {
        'f'
    }
}

/// The nibble rendered at position `i` of the hex encoding: the high nibble
/// of byte `i / 2` at even positions, the low nibble at odd ones.
pub open spec fn nibble_at(bytes: Seq<u8>, i: int) -> int
    recommends
        0 <= i < 2 * bytes.len(),
{
    if i % 2 == 0 {
        bytes[i / 2] as int / 16
    } else {
        bytes[i / 2] as int % 16
    }
}

/// The lowercase hex encoding of a byte sequence: two digits per byte,
/// high nibble first, bytes in order.
pub open spec fn hex_of(bytes: Seq<u8>) -> Seq<char> {
    Seq::new(2 * bytes.len(), |i: int| hex_digit_char(nibble_at(bytes, i)))
}

/// Relies on `hex::encode`: each input byte becomes two lowercase hex
/// digits (table `0123456789abcdef`), high nibble first, bytes in order.
#[verifier::external_body]
pub(crate) fn hex_encode(bytes: &[u8]) -> (r: String)
    ensures
        r@ == hex_of(bytes@),
{
    hex::encode(bytes)
}

/// Whether a character is one of the sixteen lowercase hex digits.
pub open spec fn is_lower_hex_digit(c: char) -> bool {
    c == '0' || c == '1' || c == '2' || c == '3' || c == '4' || c == '5' || c == '6' || c == '7'
        || c == '8' || c == '9' || c == 'a' || c == 'b' || c == 'c' || c == 'd' || c == 'e'
        || c == 'f'
}

/// Every character of a hex encoding is a lowercase hex digit, and the
/// encoding is twice as long as its input.
pub proof fn lemma_hex_of_digits(bytes: Seq<u8>)
    ensures
        hex_of(bytes).len() == 2 * bytes.len(),
        forall|i: int|
            0 <= i < hex_of(bytes).len() ==> is_lower_hex_digit(#[trigger] hex_of(bytes)[i]),
{
    assert forall|i: int| 0 <= i < hex_of(bytes).len() implies is_lower_hex_digit(
        #[trigger] hex_of(bytes)[i],
    ) by {
        assert(0 <= nibble_at(bytes, i) < 16);
    }
}

} // verus!
