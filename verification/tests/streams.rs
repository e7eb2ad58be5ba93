use bridge_messenger::errors::MessengerError;
use bridge_messenger::state::{Count, ProcessedVAA, TransactionData};
use bridge_messenger::streams::{
    deposit, instant_transfer, sender_withdraw, stream_cancel, stream_pause, stream_withdraw,
};
use bridge_messenger::vaa::{serialize_vaa, MessageData};
use sha3::Digest;
use solana_program::pubkey::Pubkey;

fn addr(n: u8) -> [u8; 32] {
    [n; 32]
}

fn chain_one() -> [u8; 32] {
    let mut c = [0u8; 32];
    c[31] = 1;
    c
}

fn blank_record() -> TransactionData {
    TransactionData {
        sender: [0; 32],
        receiver: [0; 32],
        data_account: [0; 32],
        from_chain_id: 0,
        token_mint: [0; 32],
        amount: 0,
        start_time: 0,
        end_time: 0,
        can_update: false,
        can_cancel: false,
    }
}

fn make_vaa(payload: Vec<u8>) -> MessageData {
    MessageData {
        vaa_time: 111,
        nonce: 7,
        emitter_chain: 4,
        emitter_address: addr(9),
        sequence: 9,
        consistency_level: 1,
        payload,
    }
}

fn posted_address(vaa: &MessageData, core_bridge: &[u8; 32]) -> [u8; 32] {
    let serialized = serialize_vaa(vaa);
    let hash: [u8; 32] = <sha3::Keccak256 as Digest>::digest(&serialized).into();
    let bridge = Pubkey::new_from_array(*core_bridge);
    Pubkey::find_program_address(&[b"PostedVAA", &hash], &bridge).0.to_bytes()
}

fn emitter_for(vaa: &MessageData) -> bridge_messenger::state::EmitterAddrAccount {
    bridge_messenger::state::EmitterAddrAccount {
        chain_id: vaa.emitter_chain,
        emitter_addr: hex::encode(vaa.emitter_address),
    }
}

fn derive_u64(identity: &[u8; 32], chain: u64, program_id: &[u8; 32]) -> [u8; 32] {
    let pid = Pubkey::new_from_array(*program_id);
    Pubkey::find_program_address(&[identity, &chain.to_be_bytes()], &pid).0.to_bytes()
}

fn amount_blob(amount: u64) -> Vec<u8> {
    let mut d = vec![0u8; 8];
    d.extend_from_slice(&amount.to_le_bytes());
    d
}

/// The deposit-shaped payload: opcode 6, amount, target chain, sender, mint.
fn deposit_payload(amount: u64, sender: [u8; 32], mint: [u8; 32]) -> Vec<u8> {
    let mut p = vec![6u8];
    p.extend_from_slice(&amount.to_be_bytes());
    p.extend_from_slice(&chain_one());
    p.extend_from_slice(&sender);
    p.extend_from_slice(&mint);
    p
}

/// The withdraw-shaped payload: opcode 4, target chain, withdrawer, mint,
/// depositor, stream data account.
fn withdraw_payload(
    withdrawer: [u8; 32],
    mint: [u8; 32],
    depositor: [u8; 32],
    data_account: [u8; 32],
) -> Vec<u8> {
    let mut p = vec![4u8];
    p.extend_from_slice(&chain_one());
    p.extend_from_slice(&withdrawer);
    p.extend_from_slice(&mint);
    p.extend_from_slice(&depositor);
    p.extend_from_slice(&data_account);
    p
}

#[test]
fn deposit_message_stores_and_returns_the_amount() {
    let core_bridge = addr(77);
    let program_id = addr(90);
    let sender = addr(1);
    let mint = addr(3);
    let vaa = make_vaa(deposit_payload(700, sender, mint));
    let account = posted_address(&vaa, &core_bridge);
    let emitter = emitter_for(&vaa);
    let mut count = Count { count: 0 };
    let mut marker = ProcessedVAA { transaction_count: 0 };
    let mut record = blank_record();
    let source_pda = derive_u64(&sender, 4, &program_id);
    let (amount, _seeds) = deposit(
        &vaa,
        &account,
        &emitter,
        &core_bridge,
        &mut count,
        &mut marker,
        &mut record,
        &sender,
        4,
        1,
        &amount_blob(700),
        &mint,
        &source_pda,
        &program_id,
    )
    .unwrap();
    assert_eq!(amount, 700);
    assert_eq!(record.amount, 700);
    assert_eq!(record.token_mint, mint);
    assert_eq!(count.count, 1);

    // A claimed amount that differs from the decoded one is refused and
    // nothing is stored.
    let mut count2 = Count { count: 0 };
    let mut record2 = blank_record();
    let r = deposit(
        &vaa,
        &account,
        &emitter,
        &core_bridge,
        &mut count2,
        &mut marker,
        &mut record2,
        &sender,
        4,
        1,
        &amount_blob(701),
        &mint,
        &source_pda,
        &program_id,
    );
    assert_eq!(r.err(), Some(MessengerError::AmountMismatch));
    assert_eq!(count2.count, 0);
    assert_eq!(record2.amount, 0);
}

#[test]
fn sender_withdraw_uses_the_deposit_layout() {
    let core_bridge = addr(77);
    let program_id = addr(90);
    let sender = addr(1);
    let mint = addr(3);
    let vaa = make_vaa(deposit_payload(50, sender, mint));
    let account = posted_address(&vaa, &core_bridge);
    let emitter = emitter_for(&vaa);
    let mut count = Count { count: 0 };
    let mut marker = ProcessedVAA { transaction_count: 0 };
    let mut record = blank_record();
    let source_pda = derive_u64(&sender, 4, &program_id);
    let (amount, _) = sender_withdraw(
        &vaa,
        &account,
        &emitter,
        &core_bridge,
        &mut count,
        &mut marker,
        &mut record,
        &sender,
        4,
        1,
        &amount_blob(50),
        &mint,
        &source_pda,
        &program_id,
    )
    .unwrap();
    assert_eq!(amount, 50);

    // A wrong source account is refused.
    let mut count2 = Count { count: 0 };
    let r = sender_withdraw(
        &vaa,
        &account,
        &emitter,
        &core_bridge,
        &mut count2,
        &mut marker,
        &mut record,
        &sender,
        4,
        1,
        &amount_blob(50),
        &mint,
        &addr(60),
        &program_id,
    );
    assert_eq!(r.err(), Some(MessengerError::SenderDerivedKeyMismatch));
}

#[test]
fn receiver_withdraws_a_stream() {
    let core_bridge = addr(77);
    let program_id = addr(90);
    let depositor = addr(1);
    let withdrawer = addr(2);
    let mint = addr(3);
    let data_account = addr(4);
    let vaa = make_vaa(withdraw_payload(withdrawer, mint, depositor, data_account));
    let account = posted_address(&vaa, &core_bridge);
    let emitter = emitter_for(&vaa);
    let mut count = Count { count: 0 };
    let mut marker = ProcessedVAA { transaction_count: 0 };
    let mut record = blank_record();
    let source_pda = derive_u64(&depositor, 4, &program_id);
    let receiver_pda = derive_u64(&withdrawer, 4, &program_id);
    let seeds = stream_withdraw(
        &vaa,
        &account,
        &emitter,
        &core_bridge,
        &mut count,
        &mut marker,
        &mut record,
        &withdrawer,
        4,
        1,
        &mint,
        &data_account,
        &source_pda,
        &receiver_pda,
        &program_id,
    )
    .unwrap();
    assert_eq!(seeds.seeds[0], withdrawer.to_vec());
    assert_eq!(record.sender, depositor);
    assert_eq!(record.receiver, withdrawer);
    assert_eq!(record.data_account, data_account);

    // A wrong stream data account is refused.
    let mut count2 = Count { count: 0 };
    let r = stream_withdraw(
        &vaa,
        &account,
        &emitter,
        &core_bridge,
        &mut count2,
        &mut marker,
        &mut record,
        &withdrawer,
        4,
        1,
        &mint,
        &addr(5),
        &source_pda,
        &receiver_pda,
        &program_id,
    );
    assert_eq!(r.err(), Some(MessengerError::DataAccountMismatch));
}

#[test]
fn pause_and_cancel_require_the_depositor_identity() {
    let core_bridge = addr(77);
    let program_id = addr(90);
    let depositor = addr(1);
    let mint = addr(3);
    let data_account = addr(4);
    // The identity submitting the message is both the withdrawer field and
    // the depositor field when the depositor pauses its own stream.
    let vaa = make_vaa(withdraw_payload(depositor, mint, depositor, data_account));
    let account = posted_address(&vaa, &core_bridge);
    let emitter = emitter_for(&vaa);
    let mut count = Count { count: 0 };
    let mut marker = ProcessedVAA { transaction_count: 0 };
    let mut record = blank_record();
    let source_pda = derive_u64(&depositor, 4, &program_id);
    let r = stream_pause(
        &vaa,
        &account,
        &emitter,
        &core_bridge,
        &mut count,
        &mut marker,
        &mut record,
        &depositor,
        4,
        1,
        &data_account,
        &source_pda,
        &source_pda,
        &program_id,
    );
    assert!(r.is_ok());
    assert_eq!(count.count, 1);

    // A message naming someone else as the depositor is refused when the
    // submitter pauses: the stored sender differs from the identity.
    let other = addr(8);
    let vaa2 = make_vaa(withdraw_payload(depositor, mint, other, data_account));
    let account2 = posted_address(&vaa2, &core_bridge);
    let mut count2 = Count { count: 0 };
    let r = stream_pause(
        &vaa2,
        &account2,
        &emitter,
        &core_bridge,
        &mut count2,
        &mut marker,
        &mut record,
        &depositor,
        4,
        1,
        &data_account,
        &source_pda,
        &source_pda,
        &program_id,
    );
    assert_eq!(r.err(), Some(MessengerError::PdaSenderMismatch));

    // Cancel follows the same layout and checks the mint as well.
    let mut count3 = Count { count: 0 };
    let receiver_pda = derive_u64(&depositor, 4, &program_id);
    let r = stream_cancel(
        &vaa,
        &account,
        &emitter,
        &core_bridge,
        &mut count3,
        &mut marker,
        &mut record,
        &depositor,
        4,
        1,
        &addr(13),
        &data_account,
        &source_pda,
        &receiver_pda,
        &program_id,
    );
    assert_eq!(r.err(), Some(MessengerError::MintKeyMismatch));
    let r = stream_cancel(
        &vaa,
        &account,
        &emitter,
        &core_bridge,
        &mut count3,
        &mut marker,
        &mut record,
        &depositor,
        4,
        1,
        &mint,
        &data_account,
        &source_pda,
        &receiver_pda,
        &program_id,
    );
    assert!(r.is_ok());
}

#[test]
fn instant_transfer_checks_the_previously_stored_amount() {
    let core_bridge = addr(77);
    let program_id = addr(90);
    let depositor = addr(1);
    let mint = addr(3);
    let data_account = addr(4);
    let vaa = make_vaa(withdraw_payload(depositor, mint, depositor, data_account));
    let account = posted_address(&vaa, &core_bridge);
    let emitter = emitter_for(&vaa);
    let mut count = Count { count: 0 };
    let mut marker = ProcessedVAA { transaction_count: 0 };
    let mut record = blank_record();
    record.amount = 250;
    let source_pda = derive_u64(&depositor, 4, &program_id);
    let (amount, _) = instant_transfer(
        &vaa,
        &account,
        &emitter,
        &core_bridge,
        &mut count,
        &mut marker,
        &mut record,
        &depositor,
        4,
        1,
        &amount_blob(250),
        &mint,
        &source_pda,
        &source_pda,
        &program_id,
    )
    .unwrap();
    assert_eq!(amount, 250);

    // The payload of this operation carries no amount: the claimed one is
    // held against the record already stored.
    let mut count2 = Count { count: 0 };
    let mut record2 = blank_record();
    record2.amount = 250;
    let r = instant_transfer(
        &vaa,
        &account,
        &emitter,
        &core_bridge,
        &mut count2,
        &mut marker,
        &mut record2,
        &depositor,
        4,
        1,
        &amount_blob(100),
        &mint,
        &source_pda,
        &source_pda,
        &program_id,
    );
    assert_eq!(r.err(), Some(MessengerError::AmountMismatch));
}
