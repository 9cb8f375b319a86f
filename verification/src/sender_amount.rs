//! The value pair carried by every bridge command.

use vstd::prelude::*;

verus! {

/// Mathematical value of a [`SenderAmount`]: the sender identity as a
/// sequence of characters, and the transferred amount.
#[verifier::ext_equal]
pub ghost struct SenderAmountV {
    pub sender: Seq<char>,
    pub amount: u64,
}

/// A transfer's origin and size: the sender's address on the external chain
/// and the unsigned amount moved. An immutable value with no identity beyond
/// its fields; every bridge command wraps exactly one of these.
///
/// The sender is carried as a character string of any length, and the wire
/// format length-prefixes its bytes. That is a decision of this wire format,
/// not an accident: the identity is opaque to this core and must render
/// verbatim in diagnostics, so no single byte width is imposed here. The
/// envelope's length is a function of the sender's byte count alone — see
/// [`crate::contract_method::lemma_envelope_len_uniform`] — so a host whose
/// identities all share one width gets one constant envelope length back.
#[derive(Clone, PartialEq, Eq, Debug)]
pub struct SenderAmount {
    pub sender: String,
    pub amount: u64,
}

impl View for SenderAmount {
    type V = SenderAmountV;

    open spec fn view(&self) -> SenderAmountV {
        SenderAmountV { sender: self.sender@, amount: self.amount }
    }
}

} // verus!
