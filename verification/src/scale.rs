//! SCALE form of the envelope payload.
//!
//! The payload of a command envelope is the pair `(sender, amount)` in SCALE
//! form: the sender's UTF-8 bytes behind a compact-encoded length, then the
//! amount as eight little-endian bytes. [`spec_payload`] states those bytes
//! exactly; the two functions that cross into `parity-scale-codec` are
//! trusted against that crate's source and say nothing beyond it.

use parity_scale_codec::{Decode, Encode};
use vstd::bytes::spec_u64_to_le_bytes;
use vstd::prelude::*;
use vstd::utf8::encode_utf8;

verus! {

/// SCALE compact encoding of a collection length `n < 2^32`: the two lowest
/// bits of the first byte select a one-, two-, four- or five-byte form, and
/// the remaining bits hold the value, little end first.
pub open spec fn spec_compact_prefix(n: nat) -> Seq<u8>
    recommends
        n < 0x1_0000_0000,
{
    if n < 0x40 {
        seq![(n * 4) as u8]
    } else if n < 0x4000 {
        seq![((n * 4 + 1) % 0x100) as u8, ((n * 4 + 1) / 0x100) as u8]
    } else if n < 0x4000_0000 {
        seq![
            ((n * 4 + 2) % 0x100) as u8,
            (((n * 4 + 2) / 0x100) % 0x100) as u8,
            (((n * 4 + 2) / 0x1_0000) % 0x100) as u8,
            (((n * 4 + 2) / 0x100_0000) % 0x100) as u8,
        ]
    } else {
        seq![
            3u8,
            (n % 0x100) as u8,
            ((n / 0x100) % 0x100) as u8,
            ((n / 0x1_0000) % 0x100) as u8,
            ((n / 0x100_0000) % 0x100) as u8,
        ]
    }
}

/// SCALE encoding of the pair `(sender, amount)`: the compact length of the
/// sender's UTF-8 bytes, those bytes themselves, then the amount as eight
/// little-endian bytes.
pub open spec fn spec_payload(sender: Seq<char>, amount: u64) -> Seq<u8> {
    spec_compact_prefix(encode_utf8(sender).len()) + encode_utf8(sender) + spec_u64_to_le_bytes(
        amount,
    )
}

/// A payload is its three parts laid end to end, so it is never shorter than
/// nine bytes: one compact byte, the sender's bytes, eight amount bytes.
pub proof fn lemma_payload_len(sender: Seq<char>, amount: u64)
    ensures
        spec_payload(sender, amount).len() == spec_compact_prefix(encode_utf8(sender).len()).len()
            + encode_utf8(sender).len() + 8,
        spec_payload(sender, amount).len() >= 9,
{
    vstd::bytes::lemma_auto_spec_u64_to_from_le_bytes();
}

/// Relies on `parity-scale-codec`'s `Encode` for `(String, u64)`: a string
/// encodes as its UTF-8 bytes behind their compact-encoded count, a `u64` as
/// its eight little-endian bytes, and a tuple as the concatenation of its
/// fields in order. Encoding a string of `2^32` or more UTF-8 bytes panics
/// in that crate, so such senders are excluded here.
#[verifier::external_body]
pub(crate) fn scale_encode_pair(sender: &String, amount: u64) -> (r: Vec<u8>)
    requires
        encode_utf8(sender@).len() <= 0xffff_ffff,
    ensures
        r@ == spec_payload(sender@, amount),
{
    (sender.clone(), amount).encode()
}

/// Relies on `parity-scale-codec`'s `Decode` for `(String, u64)`: decoding
/// reads exactly one encoded pair from the front of the input and leaves
/// trailing bytes unread, it is the inverse of `Encode`, and its compact
/// length decoding rejects non-minimal forms — so it succeeds exactly on
/// inputs that start with the encoding of some pair, and returns that pair.
/// The length prefix is a `u32`, so every sender it can return or
/// distinguish has at most `u32::MAX` UTF-8 bytes; each claim here is bound
/// to that range, within which [`spec_payload`] is one-to-one.
#[verifier::external_body]
pub(crate) fn scale_decode_pair(bytes: &[u8]) -> (r: Option<(String, u64)>)
    ensures
        r matches Some(p) ==> spec_payload(p.0@, p.1).is_prefix_of(bytes@) && encode_utf8(
            p.0@,
        ).len() <= 0xffff_ffff,
        r matches Some(p) ==> forall|s: Seq<char>, a: u64|
            encode_utf8(s).len() <= 0xffff_ffff && spec_payload(s, a).is_prefix_of(bytes@)
                ==> p.0@ == s && p.1 == a,
        r is None ==> forall|s: Seq<char>, a: u64|
            encode_utf8(s).len() <= 0xffff_ffff ==> !spec_payload(s, a).is_prefix_of(bytes@),
{
    let mut input: &[u8] = bytes;
    <(String, u64) as Decode>::decode(&mut input).ok()
}

} // verus!
