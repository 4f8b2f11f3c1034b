//! Seed derivation and pseudo-random value extraction.
//!
//! A seed is the Keccak-256 digest of the player's address bytes, the
//! big-endian block number and the big-endian nonce, in that exact order.
//! The random value is the little-endian reading of the digest's first
//! 8 bytes. Both byte orders are cross-implementation contracts.

use crate::encoding::be_bytes_u32;
use crate::encoding::be_bytes_u64;
use crate::encoding::le_u64_of;
use crate::encoding::lemma_be_bytes_u32_injective;
use crate::encoding::lemma_be_bytes_u64_injective;
use crate::encoding::lemma_concat_split;
use crate::encoding::u32_to_be_bytes;
use crate::encoding::u64_to_be_bytes;
use crate::hashing::keccak256;
use crate::hashing::keccak256_of;
use vstd::prelude::*;
use vstd::string::StrSliceExecFns;
use vstd::string::StringSliceAdditionalSpecFns;
use vstd::utf8::encode_utf8;
use vstd::utf8::encode_utf8_decode_utf8;

verus! {

broadcast use vstd::seq::group_seq_axioms;

/// The exact byte string fed to the hash: address bytes, then the 8
/// big-endian bytes of the block number, then the 4 big-endian bytes of
/// the nonce.
pub open spec fn seed_message(address_bytes: Seq<u8>, block_number: u64, nonce: u32) -> Seq<u8> {
    address_bytes + be_bytes_u64(block_number) + be_bytes_u32(nonce)
}

/// The seed: the Keccak-256 digest of the seed message.
pub open spec fn seed_of(address_bytes: Seq<u8>, block_number: u64, nonce: u32) -> Seq<u8> {
    keccak256_of(seed_message(address_bytes, block_number, nonce))
}

/// Derives the 32-byte seed for one tap. The result is a pure function of
/// the three inputs: calling it twice on the same inputs gives the same
/// seed. The address is fed as its UTF-8 bytes, with no normalization.
pub fn generate_seed(user_address: &str, block_number: u64, nonce: u32) -> (seed: Vec<u8>)
    ensures
        seed@ == seed_of(user_address.spec_bytes(), block_number, nonce),
        seed@.len() == 32,
{
    let mut message = user_address.as_bytes_vec();
    let mut block_bytes = u64_to_be_bytes(block_number);
    message.append(&mut block_bytes);
    let mut nonce_bytes = u32_to_be_bytes(nonce);
    message.append(&mut nonce_bytes);
    proof {
        assert(message@ =~= seed_message(user_address.spec_bytes(), block_number, nonce));
    }
    keccak256(message.as_slice())
}

/// Reads the seed's first 8 bytes as an unsigned 64-bit value, byte `i` at
/// bit position `i * 8`.
pub fn calculate_random_value(seed: &Vec<u8>) -> (value: u64)
    requires
        seed@.len() >= 8,
    ensures
        value == le_u64_of(seed@),
{
    let b0 = seed[0];
    let b1 = seed[1];
    let b2 = seed[2];
    let b3 = seed[3];
    let b4 = seed[4];
    let b5 = seed[5];
    let b6 = seed[6];
    let b7 = seed[7];
    let value = (b0 as u64) | ((b1 as u64) << 8) | ((b2 as u64) << 16) | ((b3 as u64) << 24) | (
    (b4 as u64) << 32) | ((b5 as u64) << 40) | ((b6 as u64) << 48) | ((b7 as u64) << 56);
    proof {
        assert((b0 as u64) | ((b1 as u64) << 8) | ((b2 as u64) << 16) | ((b3 as u64) << 24) | (
        (b4 as u64) << 32) | ((b5 as u64) << 40) | ((b6 as u64) << 48) | ((b7 as u64) << 56) == b0
            + b1 * 0x100 + b2 * 0x10000 + b3 * 0x1000000 + b4 * 0x100000000 + b5 * 0x10000000000
            + b6 * 0x1000000000000 + b7 * 0x100000000000000) by (bit_vector);
    }
    value
}

/// The seed message determines its inputs: the fixed-width block number and
/// nonce sit at the end, so equal messages can only come from equal
/// addresses, block numbers and nonces.
#[verifier::rlimit(100)]
pub proof fn lemma_seed_message_injective(
    a1: Seq<u8>,
    b1: u64,
    n1: u32,
    a2: Seq<u8>,
    b2: u64,
    n2: u32,
)
    requires
        seed_message(a1, b1, n1) == seed_message(a2, b2, n2),
    ensures
        a1 == a2,
        b1 == b2,
        n1 == n2,
{
    lemma_concat_split(
        a1 + be_bytes_u64(b1),
        be_bytes_u32(n1),
        a2 + be_bytes_u64(b2),
        be_bytes_u32(n2),
    );
    lemma_concat_split(a1, be_bytes_u64(b1), a2, be_bytes_u64(b2));
    lemma_be_bytes_u64_injective(b1, b2);
    lemma_be_bytes_u32_injective(n1, n2);
}

/// Changing the address, the block number or the nonce changes the byte
/// string fed to the hash, so no two distinct taps ever reuse a hash input.
/// (That their digests then differ is the hash's collision resistance,
/// which is assumed of Keccak-256, not proved here.)
pub proof fn lemma_seed_inputs_distinct(
    addr1: Seq<char>,
    b1: u64,
    n1: u32,
    addr2: Seq<char>,
    b2: u64,
    n2: u32,
)
    requires
        addr1 != addr2 || b1 != b2 || n1 != n2,
    ensures
        seed_message(encode_utf8(addr1), b1, n1) != seed_message(encode_utf8(addr2), b2, n2),
{
    if seed_message(encode_utf8(addr1), b1, n1) == seed_message(encode_utf8(addr2), b2, n2) {
        lemma_seed_message_injective(encode_utf8(addr1), b1, n1, encode_utf8(addr2), b2, n2);
        encode_utf8_decode_utf8(addr1);
        encode_utf8_decode_utf8(addr2);
        assert(addr1 == addr2);
    }
}

} // verus!
