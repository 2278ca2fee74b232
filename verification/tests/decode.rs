use priority_ledger::eth_watch::{
    decode_priority_op_events, parse_priority_queue_pubdata, DecodeError, EventLog,
};
use priority_ledger::ops::ZkSyncPriorityOp;

fn word_u64(v: u64) -> Vec<u8> {
    let mut w = vec![0u8; 24];
    w.extend_from_slice(&v.to_be_bytes());
    w
}

fn full_exit_pubdata(account_id: u32, address: &[u8; 20], token: u32) -> Vec<u8> {
    let mut d = vec![6u8];
    d.extend_from_slice(&account_id.to_be_bytes());
    d.extend_from_slice(address);
    d.extend_from_slice(&token.to_be_bytes());
    d
}

fn deposit_pubdata(account_id: u32, token: u32, amount: u128, to: &[u8; 20]) -> Vec<u8> {
    let mut d = vec![1u8];
    d.extend_from_slice(&account_id.to_be_bytes());
    d.extend_from_slice(&token.to_be_bytes());
    d.extend_from_slice(&amount.to_be_bytes());
    d.extend_from_slice(to);
    d
}

fn event_data(sender: &[u8; 20], serial_id: u64, pubdata: &[u8], deadline: u64) -> Vec<u8> {
    let mut d = vec![0u8; 12];
    d.extend_from_slice(sender);
    d.extend_from_slice(&word_u64(serial_id));
    d.extend_from_slice(&word_u64(128)); // offset of the bytes payload
    d.extend_from_slice(&word_u64(deadline));
    d.extend_from_slice(&word_u64(pubdata.len() as u64));
    d.extend_from_slice(pubdata);
    while d.len() % 32 != 0 {
        d.push(0);
    }
    d
}

fn log_with_data(data: Vec<u8>) -> EventLog {
    EventLog {
        address: vec![0x11; 20],
        topics: vec![vec![0x22; 32]],
        data,
        transaction_hash: Some(vec![0x33; 32]),
        block_number: Some(90),
    }
}

#[test]
fn decodes_a_full_exit_log() {
    let pubdata = full_exit_pubdata(7, &[0xAA; 20], 5);
    let log = log_with_data(event_data(&[0x44; 20], 12, &pubdata, 1000));

    let ops = decode_priority_op_events(&vec![log]).unwrap();
    assert_eq!(ops.len(), 1);
    assert_eq!(ops[0].serial_id, 12);
    assert_eq!(ops[0].deadline_block, 1000);
    assert_eq!(ops[0].eth_hash, vec![0x33; 32]);
    assert_eq!(ops[0].eth_block, 90);
    match &ops[0].data {
        ZkSyncPriorityOp::FullExit(fe) => {
            assert_eq!(fe.account_id, 7);
            assert_eq!(fe.eth_address, vec![0xAA; 20]);
            assert_eq!(fe.token, 5);
        },
        other => panic!("expected a full exit, got {:?}", other),
    }
}

#[test]
fn decodes_a_deposit_log() {
    let pubdata = deposit_pubdata(0, 9, 123456789012345678901234567890, &[0xBB; 20]);
    let log = log_with_data(event_data(&[0x44; 20], 3, &pubdata, 77));

    let ops = decode_priority_op_events(&vec![log]).unwrap();
    assert_eq!(ops.len(), 1);
    match &ops[0].data {
        ZkSyncPriorityOp::Deposit(dep) => {
            assert_eq!(dep.token, 9);
            assert_eq!(dep.amount, 123456789012345678901234567890);
            assert_eq!(dep.to, vec![0xBB; 20]);
            assert_eq!(dep.from, vec![0u8; 20]);
        },
        other => panic!("expected a deposit, got {:?}", other),
    }
}

#[test]
fn decoding_twice_returns_identical_sequences() {
    // Determinism: the same raw logs decode to the same operations in the
    // same order, however often the range is re-queried.
    let logs = vec![
        log_with_data(event_data(&[0x44; 20], 1, &full_exit_pubdata(7, &[0xAA; 20], 5), 10)),
        log_with_data(event_data(&[0x44; 20], 2, &deposit_pubdata(0, 9, 1000, &[0xBB; 20]), 20)),
    ];

    let first = decode_priority_op_events(&logs).unwrap();
    let second = decode_priority_op_events(&logs).unwrap();
    assert_eq!(first.len(), second.len());
    for (a, b) in first.iter().zip(second.iter()) {
        assert_eq!(format!("{:?}", a), format!("{:?}", b));
    }
}

#[test]
fn one_malformed_log_fails_the_whole_batch() {
    let good = log_with_data(event_data(&[0x44; 20], 1, &full_exit_pubdata(7, &[0xAA; 20], 5), 10));
    let bad = log_with_data(vec![0u8; 64]); // data section far too short
    let err = decode_priority_op_events(&vec![good, bad]).unwrap_err();
    assert_eq!(err, DecodeError::MalformedLog);
}

#[test]
fn missing_transaction_hash_is_malformed() {
    let mut log = log_with_data(event_data(&[0x44; 20], 1, &full_exit_pubdata(7, &[0xAA; 20], 5), 10));
    log.transaction_hash = None;
    assert_eq!(decode_priority_op_events(&vec![log]).unwrap_err(), DecodeError::MalformedLog);
}

#[test]
fn missing_block_number_is_malformed() {
    let mut log = log_with_data(event_data(&[0x44; 20], 1, &full_exit_pubdata(7, &[0xAA; 20], 5), 10));
    log.block_number = None;
    assert_eq!(decode_priority_op_events(&vec![log]).unwrap_err(), DecodeError::MalformedLog);
}

#[test]
fn oversized_serial_id_is_malformed() {
    let pubdata = full_exit_pubdata(7, &[0xAA; 20], 5);
    let mut data = event_data(&[0x44; 20], 1, &pubdata, 10);
    data[40] = 1; // a nonzero byte above the low 64 bits of the serial id
    assert_eq!(
        decode_priority_op_events(&vec![log_with_data(data)]).unwrap_err(),
        DecodeError::MalformedLog
    );
}

#[test]
fn truncated_pubdata_is_malformed() {
    let pubdata = full_exit_pubdata(7, &[0xAA; 20], 5);
    let mut data = event_data(&[0x44; 20], 1, &pubdata, 10);
    data.truncate(160); // length word promises more bytes than are present
    assert_eq!(
        decode_priority_op_events(&vec![log_with_data(data)]).unwrap_err(),
        DecodeError::MalformedLog
    );
}

#[test]
fn unknown_opcode_is_malformed() {
    let pubdata = vec![0xEEu8; 29];
    assert_eq!(parse_priority_queue_pubdata(&pubdata).unwrap_err(), DecodeError::MalformedLog);
}

#[test]
fn wrong_pubdata_length_is_malformed() {
    let mut pubdata = full_exit_pubdata(7, &[0xAA; 20], 5);
    pubdata.push(0); // a trailing byte no full exit carries
    assert_eq!(parse_priority_queue_pubdata(&pubdata).unwrap_err(), DecodeError::MalformedLog);
}

#[test]
fn empty_batch_decodes_to_no_operations() {
    let ops = decode_priority_op_events(&Vec::new()).unwrap();
    assert!(ops.is_empty());
}
