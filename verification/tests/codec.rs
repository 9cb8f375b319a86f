use parity_scale_codec::Encode;
use polkaswap::contract_method::{ContractMethod, DecodeError};
use polkaswap::sender_amount::SenderAmount;

fn sample() -> SenderAmount {
    SenderAmount { sender: "0xabc".to_string(), amount: 42 }
}

fn all_variants() -> Vec<ContractMethod> {
    vec![
        ContractMethod::DepositToken(sample()),
        ContractMethod::DepositETH(sample()),
        ContractMethod::WithdrawETH(sample()),
        ContractMethod::WithdrawToken(sample()),
        ContractMethod::SwapToToken(sample()),
        ContractMethod::SwapToETH(sample()),
        ContractMethod::AddLiquidity(sample()),
        ContractMethod::RemoveLiquidity(sample()),
    ]
}

#[test]
fn round_trip_all_tags() {
    for cmd in all_variants() {
        let bytes = cmd.encode();
        assert_eq!(ContractMethod::decode(&bytes), Ok(cmd));
    }
}

#[test]
fn tags_are_stable() {
    for (tag, cmd) in all_variants().into_iter().enumerate() {
        assert_eq!(cmd.tag(), tag as u8);
        assert_eq!(cmd.encode()[0], tag as u8);
    }
}

#[test]
fn exact_envelope_bytes() {
    let cmd = ContractMethod::DepositToken(sample());
    // tag 0; compact length of 5 UTF-8 bytes is 5 << 2; then the five
    // sender bytes; then 42 in eight little-endian bytes.
    let expected: Vec<u8> =
        vec![0, 20, b'0', b'x', b'a', b'b', b'c', 42, 0, 0, 0, 0, 0, 0, 0];
    assert_eq!(cmd.encode(), expected);
}

#[test]
fn payload_matches_underlying_codec() {
    let cmd = ContractMethod::SwapToETH(sample());
    let bytes = cmd.encode();
    let reference = ("0xabc".to_string(), 42u64).encode();
    assert_eq!(&bytes[1..], &reference[..]);
}

#[test]
fn envelope_length_follows_sender_width() {
    let a = ContractMethod::DepositToken(SenderAmount { sender: "0xaaa".to_string(), amount: 1 })
        .encode();
    let b = ContractMethod::SwapToETH(SenderAmount {
        sender: "0xbbb".to_string(),
        amount: u64::MAX,
    })
    .encode();
    // Senders of one byte width give one envelope length, whatever the
    // variant and amount; a wider sender gives a longer envelope.
    assert_eq!(a.len(), b.len());
    let c = ContractMethod::DepositToken(SenderAmount {
        sender: "0xlonger".to_string(),
        amount: 1,
    })
    .encode();
    assert_eq!(c.len(), a.len() + 3);
}

#[test]
fn try_encode_agrees_with_encode() {
    for cmd in all_variants() {
        assert_eq!(cmd.try_encode(), Some(cmd.encode()));
    }
}

#[test]
fn unknown_tag_rejected() {
    let valid_rest = ("0xabc".to_string(), 42u64).encode();
    for tag in [8u8, 9, 100, 255] {
        let mut bytes = vec![tag];
        bytes.extend_from_slice(&valid_rest);
        assert_eq!(ContractMethod::decode(&bytes), Err(DecodeError::UnknownTag));
        // The tag alone is already rejected as unknown, whatever follows.
        assert_eq!(ContractMethod::decode(&[tag]), Err(DecodeError::UnknownTag));
    }
}

#[test]
fn empty_buffer_is_truncated() {
    assert_eq!(ContractMethod::decode(&[]), Err(DecodeError::Truncated));
}

#[test]
fn short_payload_rejected() {
    // A known tag with nothing behind it.
    assert_eq!(ContractMethod::decode(&[0]), Err(DecodeError::BadPayload));
    // An empty sender needs eight amount bytes; seven are not enough.
    assert_eq!(
        ContractMethod::decode(&[3, 0, 1, 2, 3, 4, 5, 6, 7]),
        Err(DecodeError::BadPayload)
    );
    // Every truncation of a valid envelope is rejected.
    let full = ContractMethod::AddLiquidity(sample()).encode();
    for n in 1..full.len() {
        assert!(ContractMethod::decode(&full[..n]).is_err());
    }
}

#[test]
fn invalid_utf8_sender_rejected() {
    // Tag 0, compact length 1, one byte that is not UTF-8, eight amount bytes.
    let bytes = vec![0, 4, 0xFF, 42, 0, 0, 0, 0, 0, 0, 0];
    assert_eq!(ContractMethod::decode(&bytes), Err(DecodeError::BadPayload));
}

#[test]
fn minimal_envelope_decodes() {
    // Tag 1, empty sender, amount 7.
    let bytes = vec![1, 0, 7, 0, 0, 0, 0, 0, 0, 0];
    assert_eq!(
        ContractMethod::decode(&bytes),
        Ok(ContractMethod::DepositETH(SenderAmount { sender: String::new(), amount: 7 }))
    );
}

#[test]
fn trailing_bytes_ignored() {
    let cmd = ContractMethod::WithdrawToken(sample());
    let mut bytes = cmd.encode();
    bytes.extend_from_slice(&[0xDE, 0xAD, 0xBE, 0xEF]);
    assert_eq!(ContractMethod::decode(&bytes), Ok(cmd));
}

#[test]
fn large_amount_round_trips() {
    let cmd = ContractMethod::RemoveLiquidity(SenderAmount {
        sender: "0x00deadbeef".to_string(),
        amount: u64::MAX,
    });
    let bytes = cmd.encode();
    assert_eq!(ContractMethod::decode(&bytes), Ok(cmd));
}
