use bitcoin_mini::BitcoinError;
use bitcoin_mini::BitcoinSerialize;
use bitcoin_mini::LegacyTransaction;
use bitcoin_mini::OutPoint;
use bitcoin_mini::TxInput;
use bitcoin_mini::TxOutput;

#[test]
fn serialize_is_eight_bytes_version_then_lock_time() {
    let tx = LegacyTransaction::builder()
        .version(2)
        .add_input(TxInput::new(
            OutPoint::new([0xAA; 32], 0),
            vec![0x76, 0xA9, 0x14],
            0xFFFF_FFFF,
        ))
        .add_output(TxOutput::new(50_000_000, vec![0x76, 0xA9, 0x14, 0x88, 0xAC]))
        .lock_time(500_000)
        .build();
    let bytes = tx.serialize();
    assert_eq!(bytes, vec![0x02, 0x00, 0x00, 0x00, 0x20, 0xA1, 0x07, 0x00]);
}

#[test]
fn serialize_negative_version_two_complement() {
    let tx = LegacyTransaction::builder().version(-1).lock_time(0).build();
    assert_eq!(tx.serialize(), vec![0xFF, 0xFF, 0xFF, 0xFF, 0x00, 0x00, 0x00, 0x00]);
}

#[test]
fn serialize_ignores_inputs_and_outputs() {
    let plain = LegacyTransaction::builder().version(5).lock_time(77).build();
    let loaded = LegacyTransaction::builder()
        .version(5)
        .add_input(TxInput::new(OutPoint::new([0xCC; 32], 2), vec![9, 9, 9], 17))
        .add_output(TxOutput::new(1234, vec![8, 8]))
        .lock_time(77)
        .build();
    assert_eq!(plain.serialize(), loaded.serialize());
}

#[test]
fn decode_too_short_fails() {
    assert!(matches!(
        LegacyTransaction::try_from(&[][..]),
        Err(BitcoinError::InvalidTransaction)
    ));
    assert!(matches!(
        LegacyTransaction::try_from(&[0x01, 0x00][..]),
        Err(BitcoinError::InvalidTransaction)
    ));
    let nine = [0u8; 9];
    assert!(matches!(
        LegacyTransaction::try_from(&nine[..]),
        Err(BitcoinError::InvalidTransaction)
    ));
}

#[test]
fn decode_ten_bytes_extracts_fields() {
    let data = [
        0x01, 0x00, 0x00, 0x00, // version = 1
        0x01, // one input
        0x01, // one output
        0x00, 0x00, 0x00, 0x00, // lock_time = 0
    ];
    let tx = LegacyTransaction::try_from(&data[..]).expect("ten bytes decode");
    assert_eq!(tx.version, 1);
    assert_eq!(tx.inputs.len(), 1);
    assert_eq!(tx.inputs[0].previous_output.txid, [0u8; 32]);
    assert_eq!(tx.inputs[0].previous_output.vout, 0);
    assert!(tx.inputs[0].script_sig.is_empty());
    assert_eq!(tx.inputs[0].sequence, 0xFFFF_FFFF);
    assert_eq!(tx.outputs.len(), 1);
    assert_eq!(tx.outputs[0].value, 0);
    assert!(tx.outputs[0].script_pubkey.is_empty());
    assert_eq!(tx.lock_time, 0);
}

#[test]
fn decode_reads_counts_and_ignores_trailing_bytes() {
    let data = [
        0xFE, 0xFF, 0xFF, 0xFF, // version = -2
        0x03, // three inputs
        0x02, // two outputs
        0x20, 0xA1, 0x07, 0x00, // lock_time = 500000
        0xDE, 0xAD, 0xBE, 0xEF, // trailing, ignored
    ];
    let tx = LegacyTransaction::try_from(&data[..]).expect("long input decodes");
    assert_eq!(tx.version, -2);
    assert_eq!(tx.inputs.len(), 3);
    for input in &tx.inputs {
        assert_eq!(input.previous_output.txid, [0u8; 32]);
        assert_eq!(input.previous_output.vout, 0);
        assert!(input.script_sig.is_empty());
        assert_eq!(input.sequence, 0xFFFF_FFFF);
    }
    assert_eq!(tx.outputs.len(), 2);
    for output in &tx.outputs {
        assert_eq!(output.value, 0);
        assert!(output.script_pubkey.is_empty());
    }
    assert_eq!(tx.lock_time, 500_000);
}

#[test]
fn decode_of_encoded_transaction_always_fails() {
    let tx = LegacyTransaction::builder().version(3).lock_time(99).build();
    let bytes = tx.serialize();
    assert_eq!(bytes.len(), 8);
    assert!(matches!(
        LegacyTransaction::try_from(&bytes[..]),
        Err(BitcoinError::InvalidTransaction)
    ));
}

#[test]
fn error_messages_are_one_liners() {
    assert_eq!(
        BitcoinError::InvalidTransaction.message(),
        "Invalid transaction format"
    );
    assert_eq!(BitcoinError::InvalidScript.message(), "Invalid script format");
    assert_eq!(BitcoinError::InvalidAmount.message(), "Invalid amount");
    assert_eq!(
        BitcoinError::ParseError("No command provided".to_owned()).message(),
        "Parse error: No command provided"
    );
}
