//! Bridge commands and their binary envelope.
//!
//! A command is one of a closed set of eight operations, each wrapping one
//! [`SenderAmount`]. On the wire a command travels as an envelope: one tag
//! byte naming the variant, then the SCALE payload of the wrapped pair. The
//! tag numbering is stable — existing envelopes depend on it never changing —
//! and both directions of the codec are verified against the one spec-level
//! envelope, [`spec_envelope`], so they cannot drift apart.

use crate::scale::{scale_decode_pair, scale_encode_pair, spec_payload};
use crate::sender_amount::{SenderAmount, SenderAmountV};
use vstd::prelude::*;
use vstd::slice::{slice_index_get, slice_subrange};
use vstd::string::StringExecFns;
use vstd::utf8::encode_utf8;

verus! {

/// A typed request for one bridge operation, carrying the sender and the
/// amount it concerns. The eight variants are a closed union; each owns one
/// wire tag, in declaration order starting at zero.
#[derive(Clone, PartialEq, Eq, Debug)]
pub enum ContractMethod {
    DepositToken(SenderAmount),
    DepositETH(SenderAmount),
    WithdrawETH(SenderAmount),
    WithdrawToken(SenderAmount),
    SwapToToken(SenderAmount),
    SwapToETH(SenderAmount),
    AddLiquidity(SenderAmount),
    RemoveLiquidity(SenderAmount),
}

/// Mathematical value of a command: its wire tag — always below eight, one
/// per variant — and the value of the pair it wraps.
#[verifier::ext_equal]
pub ghost struct CommandView {
    pub tag: u8,
    pub sa: SenderAmountV,
}

impl View for ContractMethod {
    type V = CommandView;

    open spec fn view(&self) -> CommandView {
        match self {
            ContractMethod::DepositToken(sa) => CommandView { tag: 0, sa: sa@ },
            ContractMethod::DepositETH(sa) => CommandView { tag: 1, sa: sa@ },
            ContractMethod::WithdrawETH(sa) => CommandView { tag: 2, sa: sa@ },
            ContractMethod::WithdrawToken(sa) => CommandView { tag: 3, sa: sa@ },
            ContractMethod::SwapToToken(sa) => CommandView { tag: 4, sa: sa@ },
            ContractMethod::SwapToETH(sa) => CommandView { tag: 5, sa: sa@ },
            ContractMethod::AddLiquidity(sa) => CommandView { tag: 6, sa: sa@ },
            ContractMethod::RemoveLiquidity(sa) => CommandView { tag: 7, sa: sa@ },
        }
    }
}

/// Wire envelope of a command: the tag byte, then the SCALE payload of the
/// wrapped pair.
pub open spec fn spec_envelope(c: CommandView) -> Seq<u8> {
    seq![c.tag] + spec_payload(c.sa.sender, c.sa.amount)
}

/// Why a buffer was rejected as a command envelope.
#[derive(Clone, Copy, PartialEq, Eq, Debug)]
pub enum DecodeError {
    /// The buffer is empty: there is no tag byte to read.
    Truncated,
    /// The tag byte is not one of the eight known tags.
    UnknownTag,
    /// The bytes after the tag do not begin with a well-formed payload.
    BadPayload,
}

impl ContractMethod {
    /// Wire tag of this command's variant.
    pub fn tag(&self) -> (t: u8)
        ensures
            t == self@.tag,
            t < 8,
    {
        match self {
            ContractMethod::DepositToken(_) => 0,
            ContractMethod::DepositETH(_) => 1,
            ContractMethod::WithdrawETH(_) => 2,
            ContractMethod::WithdrawToken(_) => 3,
            ContractMethod::SwapToToken(_) => 4,
            ContractMethod::SwapToETH(_) => 5,
            ContractMethod::AddLiquidity(_) => 6,
            ContractMethod::RemoveLiquidity(_) => 7,
        }
    }

    /// The pair this command wraps.
    pub fn sender_amount(&self) -> (sa: &SenderAmount)
        ensures
            sa@ == self@.sa,
    {
        match self {
            ContractMethod::DepositToken(sa) => sa,
            ContractMethod::DepositETH(sa) => sa,
            ContractMethod::WithdrawETH(sa) => sa,
            ContractMethod::WithdrawToken(sa) => sa,
            ContractMethod::SwapToToken(sa) => sa,
            ContractMethod::SwapToETH(sa) => sa,
            ContractMethod::AddLiquidity(sa) => sa,
            ContractMethod::RemoveLiquidity(sa) => sa,
        }
    }

    /// The variant owning a known wire tag, wrapping the pair `sa`.
    fn from_tag(tag: u8, sa: SenderAmount) -> (r: ContractMethod)
        requires
            tag < 8,
        ensures
            r@.tag == tag,
            r@.sa == sa@,
    {
        match tag {
            0 => ContractMethod::DepositToken(sa),
            1 => ContractMethod::DepositETH(sa),
            2 => ContractMethod::WithdrawETH(sa),
            3 => ContractMethod::WithdrawToken(sa),
            4 => ContractMethod::SwapToToken(sa),
            5 => ContractMethod::SwapToETH(sa),
            6 => ContractMethod::AddLiquidity(sa),
            _ => ContractMethod::RemoveLiquidity(sa),
        }
    }

    /// Writes this command's wire envelope: its tag byte, then the SCALE
    /// payload of the wrapped pair. The length bound on the sender keeps the
    /// underlying codec from overflowing its length prefix.
    pub fn encode(&self) -> (r: Vec<u8>)
        requires
            encode_utf8(self@.sa.sender).len() <= 0xffff_ffff,
        ensures
            r@ == spec_envelope(self@),
    {
        let sa = self.sender_amount();
        let mut bytes: Vec<u8> = Vec::new();
        bytes.push(self.tag());
        let mut payload = scale_encode_pair(&sa.sender, sa.amount);
        bytes.append(&mut payload);
        proof {
            assert(bytes@ =~= spec_envelope(self@));
        }
        bytes
    }

    /// Writes this command's wire envelope after checking the sender fits
    /// the codec's length prefix; `None` exactly when it does not. This is
    /// the entry point for senders of unknown length.
    pub fn try_encode(&self) -> (r: Option<Vec<u8>>)
        ensures
            r matches Some(v) ==> v@ == spec_envelope(self@),
            r is Some <==> encode_utf8(self@.sa.sender).len() <= 0xffff_ffff,
    {
        let sa = self.sender_amount();
        if sa.sender.as_str().as_bytes().len() <= 0xffff_ffff {
            Some(self.encode())
        } else {
            None
        }
    }

    /// Reads one command back from the front of a wire envelope; bytes after
    /// the payload are left unread, as the underlying codec ignores them.
    ///
    /// Each error names exactly one way a buffer is rejected, the unknown-tag
    /// check comes before the payload is touched, and any buffer that begins
    /// with the envelope of an encodable command — one whose sender fits the
    /// codec's length prefix, as every encoded command does — decodes to that
    /// command. So decoding inverts [`Self::encode`], and what it returns can
    /// in turn be encoded.
    pub fn decode(bytes: &[u8]) -> (r: Result<ContractMethod, DecodeError>)
        ensures
            r == Err::<ContractMethod, DecodeError>(DecodeError::Truncated) <==> bytes@.len()
                == 0,
            r == Err::<ContractMethod, DecodeError>(DecodeError::UnknownTag) <==> bytes@.len() >= 1
                && bytes@[0] >= 8,
            r == Err::<ContractMethod, DecodeError>(DecodeError::BadPayload) <==> bytes@.len() >= 1
                && bytes@[0] < 8 && (forall|s: Seq<char>, a: u64|
                encode_utf8(s).len() <= 0xffff_ffff ==> !spec_payload(s, a).is_prefix_of(
                    bytes@.skip(1),
                )),
            r matches Ok(c) ==> c@.tag == bytes@[0] && spec_envelope(c@).is_prefix_of(bytes@)
                && bytes@.len() >= 10 && encode_utf8(c@.sa.sender).len() <= 0xffff_ffff,
            forall|c: CommandView|
                c.tag < 8 && encode_utf8(c.sa.sender).len() <= 0xffff_ffff && spec_envelope(
                    c,
                ).is_prefix_of(bytes@) ==> (r matches Ok(m) && m@ == c),
    {
        if bytes.len() == 0 {
            return Err(DecodeError::Truncated);
        }
        let tag = *slice_index_get(bytes, 0);
        if tag >= 8 {
            proof {
                lemma_envelope_prefix_tag(bytes@);
            }
            return Err(DecodeError::UnknownTag);
        }
        let rest = slice_subrange(bytes, 1, bytes.len());
        proof {
            assert(rest@ =~= bytes@.skip(1));
        }
        match scale_decode_pair(rest) {
            Some((sender, amount)) => {
                let sa = SenderAmount { sender, amount };
                let cmd = Self::from_tag(tag, sa);
                proof {
                    crate::scale::lemma_payload_len(sa@.sender, sa@.amount);
                    assert(spec_envelope(cmd@) =~= seq![tag] + spec_payload(sa@.sender, sa@.amount));
                    lemma_prefix_through_tag(bytes@, spec_payload(sa@.sender, sa@.amount));
                    assert forall|c: CommandView|
                        c.tag < 8 && encode_utf8(c.sa.sender).len() <= 0xffff_ffff && spec_envelope(
                            c,
                        ).is_prefix_of(bytes@) implies cmd@ == c by {
                        lemma_tag_of_envelope_prefix(bytes@, c);
                        assert(c.sa =~= sa@);
                        assert(cmd@ =~= c);
                    }
                }
                Ok(cmd)
            },
            None => {
                proof {
                    assert forall|c: CommandView|
                        c.tag < 8 && encode_utf8(c.sa.sender).len()
                            <= 0xffff_ffff implies !spec_envelope(c).is_prefix_of(bytes@) by {
                        if spec_envelope(c).is_prefix_of(bytes@) {
                            lemma_tag_of_envelope_prefix(bytes@, c);
                        }
                    }
                }
                Err(DecodeError::BadPayload)
            },
        }
    }
}

/// Operation name under which a tag renders, bracketed, as it appears in
/// logs and diagnostics.
pub open spec fn spec_label(tag: u8) -> Seq<char>
    recommends
        tag < 8,
{
    if tag == 0 {
        "[Deposit Token]"@
    } else if tag == 1 {
        "[Deposit ETH]"@
    } else if tag == 2 {
        "[Withdraw ETH]"@
    } else if tag == 3 {
        "[Withdraw Token]"@
    } else if tag == 4 {
        "[Swap to Token]"@
    } else if tag == 5 {
        "[Swap to ETH]"@
    } else if tag == 6 {
        "[Add liquidity]"@
    } else {
        "[Remove liquidity]"@
    }
}

/// Decimal digit character of a value below ten.
pub open spec fn spec_digit(d: nat) -> char
    recommends
        d < 10,
{
    if d == 0 {
        '0'
    } else if d == 1 {
        '1'
    } else if d == 2 {
        '2'
    } else if d == 3 {
        '3'
    } else if d == 4 {
        '4'
    } else if d == 5 {
        '5'
    } else if d == 6 {
        '6'
    } else if d == 7 {
        '7'
    } else if d == 8 {
        '8'
    } else {
        '9'
    }
}

/// Decimal rendering of a number, most significant digit first, with no
/// leading zeroes except for the number zero itself.
pub open spec fn spec_digits(n: nat) -> Seq<char>
    decreases n,
{
    if n < 10 {
        seq![spec_digit(n)]
    } else {
        spec_digits(n / 10).push(spec_digit(n % 10))
    }
}

/// Human-readable line for a command:
/// the bracketed operation name, the sender, and the amount in decimal.
pub open spec fn spec_render(c: CommandView) -> Seq<char> {
    spec_label(c.tag) + ": from: "@ + c.sa.sender + ", amount: "@ + spec_digits(c.sa.amount as nat)
}

/// One decimal digit as a string slice.
fn digit_str(d: u64) -> (r: &'static str)
    requires
        d < 10,
    ensures
        r@ == seq![spec_digit(d as nat)],
{
    let r = match d {
        0 => "0",
        1 => "1",
        2 => "2",
        3 => "3",
        4 => "4",
        5 => "5",
        6 => "6",
        7 => "7",
        8 => "8",
        _ => "9",
    };
    proof {
        reveal_strlit("0");
        reveal_strlit("1");
        reveal_strlit("2");
        reveal_strlit("3");
        reveal_strlit("4");
        reveal_strlit("5");
        reveal_strlit("6");
        reveal_strlit("7");
        reveal_strlit("8");
        reveal_strlit("9");
    }
    r
}

/// Decimal rendering of a `u64`, digit by digit.
fn u64_digits(n: u64) -> (s: String)
    ensures
        s@ == spec_digits(n as nat),
    decreases n,
{
    if n < 10 {
        String::from_str(digit_str(n))
    } else {
        let mut s = u64_digits(n / 10);
        s.append(digit_str(n % 10));
        proof {
            assert(s@ =~= spec_digits(n as nat));
        }
        s
    }
}

impl ContractMethod {
    /// Bracketed operation name of this command's variant.
    pub fn label(&self) -> (r: &'static str)
        ensures
            r@ == spec_label(self@.tag),
    {
        match self {
            ContractMethod::DepositToken(_) => "[Deposit Token]",
            ContractMethod::DepositETH(_) => "[Deposit ETH]",
            ContractMethod::WithdrawETH(_) => "[Withdraw ETH]",
            ContractMethod::WithdrawToken(_) => "[Withdraw Token]",
            ContractMethod::SwapToToken(_) => "[Swap to Token]",
            ContractMethod::SwapToETH(_) => "[Swap to ETH]",
            ContractMethod::AddLiquidity(_) => "[Add liquidity]",
            ContractMethod::RemoveLiquidity(_) => "[Remove liquidity]",
        }
    }

    /// Human-readable line for this command, for logs and diagnostics:
    /// the bracketed operation name, the sender, and the amount in decimal.
    pub fn render(&self) -> (s: String)
        ensures
            s@ == spec_render(self@),
    {
        let sa = self.sender_amount();
        let mut s = String::from_str(self.label());
        s.append(": from: ");
        s.append(sa.sender.as_str());
        s.append(", amount: ");
        let digits = u64_digits(sa.amount);
        s.append(digits.as_str());
        proof {
            assert(s@ =~= spec_render(self@));
        }
        s
    }
}

/// The envelope's length is determined by the sender's UTF-8 byte count
/// alone: one tag byte, the compact length prefix, the sender bytes, eight
/// amount bytes. In particular, commands whose senders share one byte width
/// — a host that fixes its identities to, say, twenty bytes — all have the
/// same envelope length.
pub proof fn lemma_envelope_len_uniform(c1: CommandView, c2: CommandView)
    requires
        encode_utf8(c1.sa.sender).len() == encode_utf8(c2.sa.sender).len(),
    ensures
        spec_envelope(c1).len() == spec_envelope(c2).len(),
{
    crate::scale::lemma_payload_len(c1.sa.sender, c1.sa.amount);
    crate::scale::lemma_payload_len(c2.sa.sender, c2.sa.amount);
}

/// The tag space of the closed union: every command's tag is below eight,
/// one per variant.
pub proof fn lemma_tag_bound(m: &ContractMethod)
    ensures
        m@.tag < 8,
{
}

/// Round-trip: a buffer holding exactly a command's envelope begins with
/// that envelope, so the final `ensures` clause of [`ContractMethod::decode`]
/// pins what decoding a freshly encoded command returns — `Ok` of a command
/// with the value that was encoded.
pub proof fn lemma_envelope_prefix_self(c: CommandView, bytes: Seq<u8>)
    requires
        bytes == spec_envelope(c),
    ensures
        spec_envelope(c).is_prefix_of(bytes),
{
    assert(spec_envelope(c) =~= bytes.subrange(0, spec_envelope(c).len() as int));
}

/// A buffer beginning with a command envelope begins with that envelope's
/// tag, which is below eight.
proof fn lemma_envelope_prefix_tag(bytes: Seq<u8>)
    requires
        bytes.len() >= 1,
        bytes[0] >= 8,
    ensures
        forall|c: CommandView| c.tag < 8 ==> !spec_envelope(c).is_prefix_of(bytes),
{
    assert forall|c: CommandView| c.tag < 8 implies !spec_envelope(c).is_prefix_of(bytes) by {
        if spec_envelope(c).is_prefix_of(bytes) {
            assert(spec_envelope(c)[0] == c.tag);
            assert(bytes[0] == c.tag);
        }
    }
}

/// An envelope made of the first byte of `bytes` and a payload is a prefix
/// of `bytes` exactly when the payload is a prefix of the rest of `bytes`.
proof fn lemma_prefix_through_tag(bytes: Seq<u8>, payload: Seq<u8>)
    requires
        bytes.len() >= 1,
    ensures
        payload.is_prefix_of(bytes.skip(1)) ==> (seq![bytes[0]] + payload).is_prefix_of(bytes),
{
    if payload.is_prefix_of(bytes.skip(1)) {
        let env = seq![bytes[0]] + payload;
        assert(env =~= bytes.subrange(0, env.len() as int)) by {
            assert(forall|i: int|
                1 <= i < env.len() ==> env[i] == bytes.skip(1)[i - 1] && bytes.skip(1)[i - 1]
                    == bytes[i]);
        }
    }
}

/// If the envelope of `c` is a prefix of `bytes`, then the first byte of
/// `bytes` is `c`'s tag and `c`'s payload is a prefix of the rest.
proof fn lemma_tag_of_envelope_prefix(bytes: Seq<u8>, c: CommandView)
    requires
        spec_envelope(c).is_prefix_of(bytes),
    ensures
        bytes.len() >= 1,
        bytes[0] == c.tag,
        spec_payload(c.sa.sender, c.sa.amount).is_prefix_of(bytes.skip(1)),
{
    let payload = spec_payload(c.sa.sender, c.sa.amount);
    let env = spec_envelope(c);
    assert(env[0] == c.tag);
    assert(bytes[0] == c.tag);
    assert(payload =~= bytes.skip(1).subrange(0, payload.len() as int)) by {
        assert(forall|i: int|
            0 <= i < payload.len() ==> payload[i] == env[i + 1] && env[i + 1] == bytes[i + 1]
                && bytes[i + 1] == bytes.skip(1)[i]);
    }
}

} // verus!
