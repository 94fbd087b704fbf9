use rust_week_4_exercises::cli::send_command;
use rust_week_4_exercises::{
    parse_cli_args, BitcoinError, BitcoinSerialize, CliCommand, LegacyTransaction,
    LegacyTransactionBuilder, OutPoint, Point, TxInput, TxOutput,
};

fn words(ws: &[&str]) -> Vec<String> {
    ws.iter().map(|w| w.to_string()).collect()
}

fn sample_input(vout: u32) -> TxInput {
    TxInput {
        previous_output: OutPoint { txid: [7; 32], vout },
        script_sig: vec![1, 2, 3],
        sequence: 9,
    }
}

#[test]
fn point_keeps_negative_and_equal_components() {
    let p = Point::new(-3i64, -3i64);
    assert_eq!(p.x, -3);
    assert_eq!(p.y, -3);
    assert_eq!(p, Point { x: -3, y: -3 });
}

#[test]
fn builder_starts_in_initial_state() {
    let b = LegacyTransaction::builder();
    assert_eq!(b.version, 1);
    assert!(b.inputs.is_empty());
    assert!(b.outputs.is_empty());
    assert_eq!(b.lock_time, 0);
}

#[test]
fn builder_chain_is_preserved_by_build() {
    let tx = LegacyTransactionBuilder::new()
        .version(2)
        .add_input(sample_input(4))
        .add_input(sample_input(5))
        .add_output(TxOutput { value: 50_000_000, script_pubkey: vec![0xac] })
        .lock_time(500_000)
        .build();
    assert_eq!(tx.version, 2);
    assert_eq!(tx.inputs.len(), 2);
    assert_eq!(tx.inputs[0].previous_output.vout, 4);
    assert_eq!(tx.inputs[1].previous_output.vout, 5);
    assert_eq!(tx.inputs[1].script_sig, vec![1, 2, 3]);
    assert_eq!(tx.outputs.len(), 1);
    assert_eq!(tx.outputs[0].value, 50_000_000);
    assert_eq!(tx.lock_time, 500_000);
}

#[test]
fn later_setter_overrides_earlier() {
    let b = LegacyTransactionBuilder::default().version(3).version(-7).lock_time(1).lock_time(2);
    assert_eq!(b.version, -7);
    assert_eq!(b.lock_time, 2);
}

#[test]
fn decoding_reads_little_endian_fields() {
    let data = [
        0x02, 0x01, 0x00, 0x00, // version 258
        0x03, 0x00, 0x00, 0x00, // input count 3
        0x00, 0x00, 0x00, 0x00, // output count 0
        0x20, 0xa1, 0x07, 0x00, // lock time 500000
    ];
    let tx = LegacyTransaction::try_from(&data[..]).unwrap();
    assert_eq!(tx.version, 258);
    assert_eq!(tx.lock_time, 500_000);
    assert!(tx.inputs.is_empty());
    assert!(tx.inputs.capacity() >= 3);
    assert!(tx.outputs.is_empty());
}

#[test]
fn decoding_negative_version() {
    let data = [0xff, 0xff, 0xff, 0xff, 0, 0, 0, 0, 0, 0, 0, 0, 0xff, 0xff, 0xff, 0xff];
    let tx = LegacyTransaction::try_from(&data[..]).unwrap();
    assert_eq!(tx.version, -1);
    assert_eq!(tx.lock_time, u32::MAX);
}

#[test]
fn decoding_ignores_trailing_bytes() {
    let mut data = vec![1, 0, 0, 0, 0, 0, 0, 0, 2, 0, 0, 0, 5, 0, 0, 0];
    data.extend_from_slice(&[9, 9, 9, 9, 9]);
    let tx = LegacyTransaction::try_from(&data[..]).unwrap();
    assert_eq!(tx.version, 1);
    assert_eq!(tx.lock_time, 5);
    assert!(tx.outputs.is_empty());
    assert!(tx.outputs.capacity() >= 2);
}

#[test]
fn decoding_fifteen_or_zero_bytes_fails() {
    let data = [0u8; 15];
    assert!(matches!(
        LegacyTransaction::try_from(&data[..]),
        Err(BitcoinError::InvalidTransaction)
    ));
    let empty: [u8; 0] = [];
    assert!(matches!(
        LegacyTransaction::try_from(&empty[..]),
        Err(BitcoinError::InvalidTransaction)
    ));
}

#[test]
fn serialization_bytes_are_version_then_lock_time() {
    let tx = LegacyTransactionBuilder::new()
        .version(-2)
        .add_input(sample_input(0))
        .lock_time(0x0102_0304)
        .build();
    assert_eq!(tx.serialize(), vec![0xfe, 0xff, 0xff, 0xff, 0x04, 0x03, 0x02, 0x01]);
}

#[test]
fn serialization_of_default_transaction() {
    let tx = LegacyTransaction::builder().build();
    assert_eq!(tx.serialize(), vec![1, 0, 0, 0, 0, 0, 0, 0]);
}

#[test]
fn serialized_header_decodes_back_to_version_and_lock_time() {
    let tx = LegacyTransactionBuilder::new().version(70_000).lock_time(123_456).build();
    let bytes = tx.serialize();
    let mut header = bytes[0..4].to_vec();
    header.extend_from_slice(&[0; 8]);
    header.extend_from_slice(&bytes[4..8]);
    let back = LegacyTransaction::try_from(&header[..]).unwrap();
    assert_eq!(back.version, 70_000);
    assert_eq!(back.lock_time, 123_456);
}

#[test]
fn cli_balance_ignores_extra_words() {
    assert!(matches!(parse_cli_args(&words(&["balance"])), Ok(CliCommand::Balance)));
    assert!(matches!(parse_cli_args(&words(&["balance", "x", "y"])), Ok(CliCommand::Balance)));
}

#[test]
fn cli_missing_command() {
    match parse_cli_args(&[]) {
        Err(BitcoinError::ParseError(m)) => assert_eq!(m, "Missing command"),
        _ => panic!("expected a parse error"),
    }
}

#[test]
fn cli_send_with_wrong_word_count() {
    for ws in [&["send", "1"][..], &["send", "1", "a", "b"][..]] {
        match parse_cli_args(&words(ws)) {
            Err(BitcoinError::ParseError(m)) => assert_eq!(m, "Missing amount or address"),
            _ => panic!("expected a parse error"),
        }
    }
}

#[test]
fn cli_unknown_command() {
    match parse_cli_args(&words(&["Send", "1", "a"])) {
        Err(BitcoinError::ParseError(m)) => assert_eq!(m, "Unknown command"),
        _ => panic!("expected a parse error"),
    }
}

#[test]
fn cli_send_amount_forms() {
    match parse_cli_args(&words(&["send", "+18446744073709551615", "bc1q"])) {
        Ok(CliCommand::Send { amount, address }) => {
            assert_eq!(amount, u64::MAX);
            assert_eq!(address, "bc1q");
        }
        _ => panic!("expected a send command"),
    }
    match parse_cli_args(&words(&["send", "0", ""])) {
        Ok(CliCommand::Send { amount, address }) => {
            assert_eq!(amount, 0);
            assert_eq!(address, "");
        }
        _ => panic!("expected a send command"),
    }
}

#[test]
fn cli_send_bad_amount_carries_parse_message() {
    for bad in ["18446744073709551616", "-1", "12a", "", "+", " 5"] {
        let expected = bad.parse::<u64>().unwrap_err().to_string();
        match parse_cli_args(&words(&["send", bad, "addr"])) {
            Err(BitcoinError::ParseError(m)) => {
                assert_eq!(m, expected);
                assert!(!m.is_empty());
            }
            _ => panic!("expected a parse error for {bad:?}"),
        }
    }
}

#[test]
fn send_command_from_parse_outcome() {
    match send_command(Ok(42), "dest".to_string()) {
        Ok(CliCommand::Send { amount, address }) => {
            assert_eq!(amount, 42);
            assert_eq!(address, "dest");
        }
        _ => panic!("expected a send command"),
    }
    match send_command(Err("bad digit".to_string()), "dest".to_string()) {
        Err(BitcoinError::ParseError(m)) => assert_eq!(m, "bad digit"),
        _ => panic!("expected a parse error"),
    }
}
