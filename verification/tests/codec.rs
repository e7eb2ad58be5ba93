use bridge_messenger::bytes::{
    addr_eq, be256_is_one, bytes32_matches, read_bytes32, read_u64_be, read_u64_le,
    u16_to_be_bytes_vec, u32_to_be_bytes_vec, u64_to_be_bytes_vec,
};
use bridge_messenger::errors::MessengerError;
use bridge_messenger::payload::{
    encode_deposit_payload, encode_stream_payload, encode_update_payload, XstreamDepositPayload,
    XstreamStartPayload, XstreamUpdatePayload,
};
use bridge_messenger::record::{
    process_deposit, process_direct_transfer, process_instant_transfer, process_pause,
    process_stream, process_update_stream, process_withdraw, process_withdraw_stream,
    process_cancel_stream,
};
use bridge_messenger::state::TransactionData;

fn addr(n: u8) -> [u8; 32] {
    [n; 32]
}

fn chain_one() -> [u8; 32] {
    let mut c = [0u8; 32];
    c[31] = 1;
    c
}

fn blank_record() -> TransactionData {
    TransactionData {
        sender: [0; 32],
        receiver: [0; 32],
        data_account: [0; 32],
        from_chain_id: 0,
        token_mint: [0; 32],
        amount: 0,
        start_time: 0,
        end_time: 0,
        can_update: false,
        can_cancel: false,
    }
}

#[test]
fn u64_big_endian_layout() {
    let v = u64_to_be_bytes_vec(0x0102030405060708);
    assert_eq!(v, vec![1, 2, 3, 4, 5, 6, 7, 8]);
    assert_eq!(read_u64_be(&v, 0), 0x0102030405060708);
}

#[test]
fn u32_and_u16_big_endian_layout() {
    assert_eq!(u32_to_be_bytes_vec(0xAABBCCDD), vec![0xAA, 0xBB, 0xCC, 0xDD]);
    assert_eq!(u16_to_be_bytes_vec(0x0150), vec![0x01, 0x50]);
}

#[test]
fn u64_little_endian_read() {
    let v = vec![8, 7, 6, 5, 4, 3, 2, 1];
    assert_eq!(read_u64_le(&v, 0), 0x0102030405060708);
}

#[test]
fn chain_field_accepts_only_one() {
    let mut v = chain_one().to_vec();
    assert!(be256_is_one(&v, 0));
    v[31] = 2;
    assert!(!be256_is_one(&v, 0));
    v[31] = 1;
    v[0] = 1;
    assert!(!be256_is_one(&v, 0));
}

#[test]
fn address_comparisons() {
    assert!(addr_eq(&addr(7), &addr(7)));
    assert!(!addr_eq(&addr(7), &addr(8)));
    assert!(bytes32_matches(&addr(9).to_vec(), &addr(9)));
    assert!(!bytes32_matches(&vec![9u8; 20], &addr(9)));
}

#[test]
fn read_bytes32_picks_the_window() {
    let mut v = vec![0u8; 40];
    for i in 0..40 {
        v[i] = i as u8;
    }
    let w = read_bytes32(&v, 4);
    assert_eq!(w[0], 4);
    assert_eq!(w[31], 35);
}

#[test]
fn stream_create_encoding_layout() {
    let p = XstreamStartPayload {
        start_time: 1000,
        end_time: 2000,
        amount: 500,
        to_chain_id: chain_one(),
        sender: addr(1),
        receiver: addr(2),
        can_update: 1,
        can_cancel: 0,
        token_mint: addr(3),
    };
    let enc = encode_stream_payload(&p);
    assert_eq!(enc.len(), 169);
    assert_eq!(enc[0], 2);
    assert_eq!(read_u64_be(&enc, 1), 1000);
    assert_eq!(read_u64_be(&enc, 9), 2000);
    assert_eq!(read_u64_be(&enc, 17), 500);
    assert_eq!(&enc[25..57], &chain_one());
    assert_eq!(&enc[57..89], &addr(1));
    assert_eq!(&enc[89..121], &addr(2));
    assert_eq!(read_u64_be(&enc, 121), 1);
    assert_eq!(read_u64_be(&enc, 129), 0);
    assert_eq!(&enc[137..169], &addr(3));
}

#[test]
fn stream_create_round_trip() {
    let p = XstreamStartPayload {
        start_time: 1000,
        end_time: 2000,
        amount: 500,
        to_chain_id: chain_one(),
        sender: addr(1),
        receiver: addr(2),
        can_update: 1,
        can_cancel: 0,
        token_mint: addr(3),
    };
    let enc = encode_stream_payload(&p);
    let mut record = blank_record();
    assert_eq!(process_stream(&enc, 4, &mut record, &addr(1)), Ok(()));
    assert_eq!(record.start_time, 1000);
    assert_eq!(record.end_time, 2000);
    assert_eq!(record.amount, 500);
    assert_eq!(record.sender, addr(1));
    assert_eq!(record.receiver, addr(2));
    assert_eq!(record.token_mint, addr(3));
    assert!(record.can_update);
    assert!(!record.can_cancel);
    assert_eq!(record.from_chain_id, 4);
}

#[test]
fn stream_create_rejects_wrong_sender() {
    let p = XstreamStartPayload {
        start_time: 1000,
        end_time: 2000,
        amount: 500,
        to_chain_id: chain_one(),
        sender: addr(1),
        receiver: addr(2),
        can_update: 1,
        can_cancel: 0,
        token_mint: addr(3),
    };
    let enc = encode_stream_payload(&p);
    let mut record = blank_record();
    let before = record;
    assert_eq!(
        process_stream(&enc, 4, &mut record, &addr(9)),
        Err(MessengerError::InvalidSenderWallet)
    );
    assert_eq!(record.amount, before.amount);
    assert_eq!(record.sender, before.sender);
}

#[test]
fn every_opcode_rejects_foreign_target_chain() {
    let mut bad_chain = chain_one();
    bad_chain[30] = 9;
    let sender = addr(1);
    let mut record = blank_record();

    let mut stream = encode_stream_payload(&XstreamStartPayload {
        start_time: 1,
        end_time: 2,
        amount: 3,
        to_chain_id: bad_chain,
        sender,
        receiver: addr(2),
        can_update: 0,
        can_cancel: 0,
        token_mint: addr(3),
    });
    assert_eq!(
        process_stream(&stream, 4, &mut record, &sender),
        Err(MessengerError::InvalidToChainId)
    );
    stream[0] = 14;
    // The update layout reads the same leading offsets; extend to its size.
    let mut update = stream.clone();
    update.extend_from_slice(&[0u8; 16]);
    assert_eq!(
        process_update_stream(&update, 4, &mut record, &sender),
        Err(MessengerError::InvalidToChainId)
    );

    let deposit = encode_deposit_payload(&XstreamDepositPayload {
        amount: 5,
        to_chain_id: bad_chain,
        sender,
        token_mint: addr(3),
    });
    assert_eq!(
        process_deposit(&deposit, 4, &mut record, &sender),
        Err(MessengerError::InvalidToChainId)
    );
    assert_eq!(
        process_withdraw(&deposit, 4, &mut record, &sender),
        Err(MessengerError::InvalidToChainId)
    );

    // The instant/direct layout adds one trailing address to the deposit one.
    let mut instant = deposit.clone();
    instant.extend_from_slice(&addr(2));
    assert_eq!(
        process_instant_transfer(&instant, 4, &mut record, &sender),
        Err(MessengerError::InvalidToChainId)
    );
    assert_eq!(
        process_direct_transfer(&instant, 4, &mut record, &sender),
        Err(MessengerError::InvalidToChainId)
    );

    // The pause/cancel/withdraw-stream layout: chain, identity, mint,
    // counterparty, data account.
    let mut pause = vec![8u8];
    pause.extend_from_slice(&bad_chain);
    pause.extend_from_slice(&sender);
    pause.extend_from_slice(&addr(3));
    pause.extend_from_slice(&addr(2));
    pause.extend_from_slice(&addr(4));
    assert_eq!(
        process_pause(&pause, 4, &mut record, &sender),
        Err(MessengerError::InvalidToChainId)
    );
    assert_eq!(
        process_cancel_stream(&pause, 4, &mut record, &sender),
        Err(MessengerError::InvalidToChainId)
    );
    assert_eq!(
        process_withdraw_stream(&pause, 4, &mut record, &sender),
        Err(MessengerError::InvalidToChainId)
    );
    assert_eq!(record.from_chain_id, 0);
}

#[test]
fn short_payload_is_invalid() {
    let mut record = blank_record();
    let short = vec![2u8; 10];
    assert_eq!(
        process_stream(&short, 4, &mut record, &addr(1)),
        Err(MessengerError::InvalidPayload)
    );
    assert_eq!(
        process_deposit(&short, 4, &mut record, &addr(1)),
        Err(MessengerError::InvalidPayload)
    );
}

#[test]
fn update_decode_writes_all_fields() {
    let p = XstreamUpdatePayload {
        start_time: 11,
        end_tme: 22,
        amount: 33,
        to_chain_id: chain_one(),
        sender: addr(1),
        receiver: addr(2),
        can_update: 0,
        can_cancel: 0,
        token_mint: addr(3),
        data_account: addr(4),
    };
    let enc = encode_update_payload(&p);
    assert_eq!(enc.len(), 185);
    let mut record = blank_record();
    record.can_update = true;
    assert_eq!(process_update_stream(&enc, 7, &mut record, &addr(1)), Ok(()));
    assert_eq!(record.start_time, 11);
    assert_eq!(record.end_time, 22);
    assert_eq!(record.amount, 33);
    assert_eq!(record.token_mint, addr(3));
    assert_eq!(record.data_account, addr(4));
    assert_eq!(record.from_chain_id, 7);
    // Flags are not part of the update wire format.
    assert!(record.can_update);
}
