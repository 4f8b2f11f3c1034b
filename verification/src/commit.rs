//! The commit-reveal hash: binds a player's address, nonce and secret into
//! one hex-rendered digest before the tap's outcome is revealed, so the
//! secret cannot be chosen after the fact.

use crate::encoding::be_bytes_u32;
use crate::encoding::lemma_be_bytes_u32_injective;
use crate::encoding::lemma_concat_split;
use crate::encoding::u32_to_be_bytes;
use crate::hashing::hex_encode;
use crate::hashing::hex_of;
use crate::hashing::is_lower_hex_digit;
use crate::hashing::keccak256;
use crate::hashing::keccak256_of;
use crate::hashing::lemma_hex_of_digits;
use vstd::prelude::*;
use vstd::string::StrSliceExecFns;
use vstd::string::StringExecFns;
use vstd::string::StringSliceAdditionalSpecFns;
use vstd::utf8::encode_utf8;
use vstd::utf8::encode_utf8_decode_utf8;

verus! {

broadcast use vstd::seq::group_seq_axioms;

/// The exact byte string fed to the commit hash: address bytes, then the
/// 4 big-endian bytes of the nonce, then the secret bytes.
pub open spec fn commit_message(
    address_bytes: Seq<u8>,
    nonce: u32,
    secret_bytes: Seq<u8>,
) -> Seq<u8> {
    address_bytes + be_bytes_u32(nonce) + secret_bytes
}

/// The commitment as rendered for the caller: `0x` followed by the
/// lowercase hex digits of the commit message's Keccak-256 digest.
pub open spec fn commitment_spec(
    address_bytes: Seq<u8>,
    nonce: u32,
    secret_bytes: Seq<u8>,
) -> Seq<char> {
    seq!['0', 'x'] + hex_of(keccak256_of(commit_message(address_bytes, nonce, secret_bytes)))
}

/// Hashes a tap commitment. The result is a pure function of the three
/// inputs: `0x` followed by 64 lowercase hex digits.
pub fn hash_tap_commit(user_address: &str, nonce: u32, secret: &str) -> (commitment: String)
    ensures
        commitment@ == commitment_spec(user_address.spec_bytes(), nonce, secret.spec_bytes()),
        commitment@.len() == 66,
        commitment@[0] == '0',
        commitment@[1] == 'x',
        forall|i: int| 2 <= i < 66 ==> is_lower_hex_digit(#[trigger] commitment@[i]),
{
    let mut message = user_address.as_bytes_vec();
    let mut nonce_bytes = u32_to_be_bytes(nonce);
    message.append(&mut nonce_bytes);
    let mut secret_bytes = secret.as_bytes_vec();
    message.append(&mut secret_bytes);
    proof {
        assert(message@ =~= commit_message(user_address.spec_bytes(), nonce, secret.spec_bytes()));
    }
    let digest = keccak256(message.as_slice());
    let digits = hex_encode(digest.as_slice());
    let mut commitment = String::from_str("0x");
    commitment.append(digits.as_str());
    proof {
        reveal_strlit("0x");
        assert("0x"@ =~= seq!['0', 'x']);
        lemma_hex_of_digits(digest@);
        assert(commitment@ =~= commitment_spec(
            user_address.spec_bytes(),
            nonce,
            secret.spec_bytes(),
        ));
    }
    commitment
}

/// With one address, the commit message determines the nonce and the
/// secret: the fixed-width nonce sits between the address and the secret,
/// so equal messages can only come from equal nonces and equal secrets.
pub proof fn lemma_commit_message_injective(
    address_bytes: Seq<u8>,
    n1: u32,
    s1: Seq<u8>,
    n2: u32,
    s2: Seq<u8>,
)
    requires
        commit_message(address_bytes, n1, s1) == commit_message(address_bytes, n2, s2),
    ensures
        n1 == n2,
        s1 == s2,
{
    lemma_concat_split(
        address_bytes + be_bytes_u32(n1),
        s1,
        address_bytes + be_bytes_u32(n2),
        s2,
    );
    lemma_concat_split(address_bytes, be_bytes_u32(n1), address_bytes, be_bytes_u32(n2));
    lemma_be_bytes_u32_injective(n1, n2);
}

/// Two different secrets never feed the commit hash the same bytes: with
/// the address and nonce fixed, the hash inputs differ. (That the digests
/// then differ is Keccak-256's collision resistance, which is assumed of
/// the hash, not proved here.)
pub proof fn lemma_commit_secrets_distinct(
    address: Seq<char>,
    nonce: u32,
    secret1: Seq<char>,
    secret2: Seq<char>,
)
    requires
        secret1 != secret2,
    ensures
        commit_message(encode_utf8(address), nonce, encode_utf8(secret1)) != commit_message(
            encode_utf8(address),
            nonce,
            encode_utf8(secret2),
        ),
{
    if commit_message(encode_utf8(address), nonce, encode_utf8(secret1)) == commit_message(
        encode_utf8(address),
        nonce,
        encode_utf8(secret2),
    ) {
        lemma_commit_message_injective(
            encode_utf8(address),
            nonce,
            encode_utf8(secret1),
            nonce,
            encode_utf8(secret2),
        );
        encode_utf8_decode_utf8(secret1);
        encode_utf8_decode_utf8(secret2);
        assert(secret1 == secret2);
    }
}

} // verus!
