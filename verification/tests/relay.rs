use bridge_messenger::errors::MessengerError;
use bridge_messenger::handlers::{
    initialize, initialize_pda, initialize_pda_token_account, register_chain, store_msg,
};
use bridge_messenger::payload::{encode_stream_payload, XstreamStartPayload};
use bridge_messenger::portal::{
    transaction_direct_transfer_native, transfer_native, transfer_wrapped,
    TransferNativeAccounts, TransferWrappedAccounts,
};
use bridge_messenger::state::{
    Config, Count, EmitterAddrAccount, ProcessedVAA, TransactionData, TransactionStatus,
};
use bridge_messenger::streams::stream_start;
use bridge_messenger::vaa::{authenticate, serialize_vaa, MessageData};
use sha3::Digest;
use solana_program::pubkey::Pubkey;

fn addr(n: u8) -> [u8; 32] {
    [n; 32]
}

fn chain_one() -> [u8; 32] {
    let mut c = [0u8; 32];
    c[31] = 1;
    c
}

fn blank_record() -> TransactionData {
    TransactionData {
        sender: [0; 32],
        receiver: [0; 32],
        data_account: [0; 32],
        from_chain_id: 0,
        token_mint: [0; 32],
        amount: 0,
        start_time: 0,
        end_time: 0,
        can_update: false,
        can_cancel: false,
    }
}

fn make_vaa(emitter_chain: u16, emitter_address: [u8; 32], payload: Vec<u8>) -> MessageData {
    MessageData {
        vaa_time: 111,
        nonce: 7,
        emitter_chain,
        emitter_address,
        sequence: 9,
        consistency_level: 1,
        payload,
    }
}

fn posted_address(vaa: &MessageData, core_bridge: &[u8; 32]) -> [u8; 32] {
    let serialized = serialize_vaa(vaa);
    let hash: [u8; 32] = <sha3::Keccak256 as Digest>::digest(&serialized).into();
    let bridge = Pubkey::new_from_array(*core_bridge);
    Pubkey::find_program_address(&[b"PostedVAA", &hash], &bridge).0.to_bytes()
}

fn emitter_for(vaa: &MessageData) -> EmitterAddrAccount {
    EmitterAddrAccount {
        chain_id: vaa.emitter_chain,
        emitter_addr: hex::encode(vaa.emitter_address),
    }
}

fn derive_u64(identity: &[u8; 32], chain: u64, program_id: &[u8; 32]) -> ([u8; 32], u8) {
    let pid = Pubkey::new_from_array(*program_id);
    let (k, bump) = Pubkey::find_program_address(&[identity, &chain.to_be_bytes()], &pid);
    (k.to_bytes(), bump)
}

fn derive_u16(identity: &[u8; 32], chain: u16, program_id: &[u8; 32]) -> ([u8; 32], u8) {
    let pid = Pubkey::new_from_array(*program_id);
    let (k, bump) = Pubkey::find_program_address(&[identity, &chain.to_be_bytes()], &pid);
    (k.to_bytes(), bump)
}

fn stream_payload(sender: [u8; 32]) -> Vec<u8> {
    encode_stream_payload(&XstreamStartPayload {
        start_time: 1000,
        end_time: 2000,
        amount: 500,
        to_chain_id: chain_one(),
        sender,
        receiver: addr(2),
        can_update: 1,
        can_cancel: 0,
        token_mint: addr(3),
    })
}

#[test]
fn config_starts_with_nonce_one() {
    let c = initialize(&addr(5));
    assert_eq!(c.owner, addr(5));
    assert_eq!(c.nonce, 1);
}

#[test]
fn emitter_registration_checks_the_length() {
    let ok = register_chain(4, "00112233445566778899aabbccddeeff00112233".to_string()).unwrap();
    assert_eq!(ok.chain_id, 4);
    assert_eq!(ok.emitter_addr.len(), 40);
    assert_eq!(
        register_chain(4, "0011".to_string()).err(),
        Some(MessengerError::InvalidEmitterAddress)
    );
}

#[test]
fn serialization_layout_of_a_message() {
    let vaa = make_vaa(4, addr(9), vec![0xAB, 0xCD]);
    let s = serialize_vaa(&vaa);
    assert_eq!(s.len(), 4 + 4 + 2 + 32 + 8 + 1 + 2);
    assert_eq!(&s[0..4], &111u32.to_be_bytes());
    assert_eq!(&s[4..8], &7u32.to_be_bytes());
    assert_eq!(&s[8..10], &4u16.to_be_bytes());
    assert_eq!(&s[10..42], &addr(9));
    assert_eq!(&s[42..50], &9u64.to_be_bytes());
    assert_eq!(s[50], 1);
    assert_eq!(&s[51..53], &[0xAB, 0xCD]);
}

#[test]
fn authentication_accepts_the_derived_account() {
    let core_bridge = addr(77);
    let vaa = make_vaa(4, addr(9), vec![1, 2, 3]);
    let account = posted_address(&vaa, &core_bridge);
    let emitter = emitter_for(&vaa);
    assert_eq!(authenticate(&vaa, &account, &emitter, &core_bridge), Ok(()));
}

#[test]
fn authentication_rejects_a_foreign_account() {
    let core_bridge = addr(77);
    let vaa = make_vaa(4, addr(9), vec![1, 2, 3]);
    let emitter = emitter_for(&vaa);
    assert_eq!(
        authenticate(&vaa, &addr(13), &emitter, &core_bridge),
        Err(MessengerError::VAAKeyMismatch)
    );
    // A message whose payload differs hashes to a different account.
    let other = make_vaa(4, addr(9), vec![1, 2, 4]);
    let account_of_other = posted_address(&other, &core_bridge);
    assert_eq!(
        authenticate(&vaa, &account_of_other, &emitter, &core_bridge),
        Err(MessengerError::VAAKeyMismatch)
    );
}

#[test]
fn authentication_rejects_a_foreign_emitter() {
    let core_bridge = addr(77);
    let vaa = make_vaa(4, addr(9), vec![1, 2, 3]);
    let account = posted_address(&vaa, &core_bridge);
    let wrong_chain = EmitterAddrAccount {
        chain_id: 5,
        emitter_addr: hex::encode(addr(9)),
    };
    assert_eq!(
        authenticate(&vaa, &account, &wrong_chain, &core_bridge),
        Err(MessengerError::VAAEmitterMismatch)
    );
    let wrong_address = EmitterAddrAccount {
        chain_id: 4,
        emitter_addr: hex::encode(addr(8)),
    };
    assert_eq!(
        authenticate(&vaa, &account, &wrong_address, &core_bridge),
        Err(MessengerError::VAAEmitterMismatch)
    );
}

#[test]
fn replayed_count_is_rejected_and_record_kept() {
    let core_bridge = addr(77);
    let sender = addr(1);
    let vaa = make_vaa(4, addr(9), stream_payload(sender));
    let account = posted_address(&vaa, &core_bridge);
    let emitter = emitter_for(&vaa);
    let mut count = Count { count: 0 };
    let mut marker = ProcessedVAA { transaction_count: 0 };
    let mut record = blank_record();

    // First submission with the declared count 1: accepted, stored.
    let r = store_msg(
        &vaa, &account, &emitter, &core_bridge, &mut count, &mut marker, &mut record, 1, &sender,
    );
    assert_eq!(r, Ok(()));
    assert_eq!(count.count, 1);
    assert_eq!(marker.transaction_count, 1);
    assert_eq!(record.amount, 500);
    assert_eq!(record.start_time, 1000);

    // The same message again with the same declared count: rejected, and
    // the stored record is unchanged.
    let before = record;
    let r = store_msg(
        &vaa, &account, &emitter, &core_bridge, &mut count, &mut marker, &mut record, 1, &sender,
    );
    assert_eq!(r, Err(MessengerError::InvalidCount));
    assert_eq!(count.count, 1);
    assert_eq!(record.amount, before.amount);
    assert_eq!(record.sender, before.sender);
}

#[test]
fn unknown_opcode_and_empty_payload_are_rejected() {
    let core_bridge = addr(77);
    let sender = addr(1);
    let mut bad = stream_payload(sender);
    bad[0] = 99;
    let vaa = make_vaa(4, addr(9), bad);
    let account = posted_address(&vaa, &core_bridge);
    let emitter = emitter_for(&vaa);
    let mut count = Count { count: 0 };
    let mut marker = ProcessedVAA { transaction_count: 0 };
    let mut record = blank_record();
    let r = store_msg(
        &vaa, &account, &emitter, &core_bridge, &mut count, &mut marker, &mut record, 1, &sender,
    );
    assert_eq!(r, Err(MessengerError::InvalidPayload));
    assert_eq!(count.count, 0);

    let empty = make_vaa(4, addr(9), Vec::new());
    let account = posted_address(&empty, &core_bridge);
    let r = store_msg(
        &empty, &account, &emitter, &core_bridge, &mut count, &mut marker, &mut record, 1, &sender,
    );
    assert_eq!(r, Err(MessengerError::InvalidPayload));
}

#[test]
fn counter_overflow_aborts_the_message() {
    let core_bridge = addr(77);
    let sender = addr(1);
    let vaa = make_vaa(4, addr(9), stream_payload(sender));
    let account = posted_address(&vaa, &core_bridge);
    let emitter = emitter_for(&vaa);
    let mut count = Count { count: u64::MAX };
    let mut marker = ProcessedVAA { transaction_count: 0 };
    let mut record = blank_record();
    let r = store_msg(
        &vaa, &account, &emitter, &core_bridge, &mut count, &mut marker, &mut record, 1, &sender,
    );
    assert_eq!(r, Err(MessengerError::Overflow));
    assert_eq!(count.count, u64::MAX);
}

#[test]
fn derived_account_bootstrap() {
    let core_bridge = addr(77);
    let program_id = addr(90);
    let sender = addr(1);
    let mut payload = vec![18u8];
    payload.extend_from_slice(&sender);
    payload.extend_from_slice(&chain_one());
    let vaa = make_vaa(4, addr(9), payload.clone());
    let account = posted_address(&vaa, &core_bridge);
    let emitter = emitter_for(&vaa);
    let (pda, _) = derive_u16(&sender, 4, &program_id);
    assert_eq!(
        initialize_pda(&vaa, &account, &emitter, &core_bridge, &pda, &program_id),
        Ok(())
    );
    assert_eq!(
        initialize_pda(&vaa, &account, &emitter, &core_bridge, &addr(55), &program_id),
        Err(MessengerError::InvalidPDAAccount)
    );

    // A foreign target chain id is rejected.
    let mut wrong_chain = payload.clone();
    wrong_chain[64] = 3;
    let vaa2 = make_vaa(4, addr(9), wrong_chain);
    let account2 = posted_address(&vaa2, &core_bridge);
    assert_eq!(
        initialize_pda(&vaa2, &account2, &emitter, &core_bridge, &pda, &program_id),
        Err(MessengerError::InvalidToChainId)
    );
}

#[test]
fn derived_token_account_bootstrap() {
    let core_bridge = addr(77);
    let program_id = addr(90);
    let sender = addr(1);
    let mint = addr(3);
    let mut payload = vec![19u8];
    payload.extend_from_slice(&sender);
    payload.extend_from_slice(&mint);
    payload.extend_from_slice(&chain_one());
    let vaa = make_vaa(4, addr(9), payload);
    let account = posted_address(&vaa, &core_bridge);
    let emitter = emitter_for(&vaa);
    let (pda, _) = derive_u16(&sender, 4, &program_id);
    assert_eq!(
        initialize_pda_token_account(
            &vaa, &account, &emitter, &core_bridge, &pda, &mint, &program_id
        ),
        Ok(())
    );
    assert_eq!(
        initialize_pda_token_account(
            &vaa, &account, &emitter, &core_bridge, &pda, &addr(8), &program_id
        ),
        Err(MessengerError::MintKeyMismatch)
    );
}

#[test]
fn stream_start_returns_arguments_and_seeds() {
    let core_bridge = addr(77);
    let program_id = addr(90);
    let sender = addr(1);
    let receiver = addr(2);
    let mint = addr(3);
    let vaa = make_vaa(4, addr(9), stream_payload(sender));
    let account = posted_address(&vaa, &core_bridge);
    let emitter = emitter_for(&vaa);
    let mut count = Count { count: 0 };
    let mut marker = ProcessedVAA { transaction_count: 0 };
    let mut record = blank_record();
    let (source_pda, _) = derive_u64(&sender, 4, &program_id);
    let (dest_pda, _) = derive_u64(&receiver, 4, &program_id);
    let from_chain_id = 4u16;
    let (_, bump) = derive_u16(&sender, from_chain_id, &program_id);
    let mut data = vec![0u8; 8];
    data.extend_from_slice(&1000u64.to_le_bytes());
    data.extend_from_slice(&2000u64.to_le_bytes());
    data.extend_from_slice(&500u64.to_le_bytes());
    data.push(0);
    data.push(1);
    let (args, seeds) = stream_start(
        &vaa,
        &account,
        &emitter,
        &core_bridge,
        &mut count,
        &mut marker,
        &mut record,
        &sender,
        from_chain_id,
        1,
        &data,
        &mint,
        &source_pda,
        &dest_pda,
        &program_id,
    )
    .unwrap();
    assert_eq!(args.start_time, 1000);
    assert_eq!(args.end_time, 2000);
    assert_eq!(args.amount, 500);
    assert!(!args.can_cancel);
    assert!(args.can_update);
    assert_eq!(seeds.bump, bump);
    assert_eq!(seeds.seeds[0], sender.to_vec());
    assert_eq!(seeds.seeds[1], from_chain_id.to_be_bytes().to_vec());
    assert_eq!(seeds.seeds[2], vec![bump]);
    assert_eq!(count.count, 1);
    assert_eq!(record.amount, 500);
}

fn native_accounts(zebec_eoa: [u8; 32], mint: [u8; 32]) -> TransferNativeAccounts {
    TransferNativeAccounts {
        zebec_eoa,
        portal_config: addr(101),
        from: addr(102),
        mint,
        portal_custody: addr(104),
        portal_authority_signer: addr(105),
        portal_custody_signer: addr(106),
        bridge_config: addr(107),
        portal_message: addr(108),
        portal_emitter: addr(109),
        portal_sequence: addr(110),
        bridge_fee_collector: addr(111),
        clock: addr(112),
        rent: addr(113),
        system_program: addr(114),
        core_bridge_program: addr(115),
        token_program: addr(116),
    }
}

#[test]
fn native_transfer_builds_the_bridge_instruction() {
    let program_id = addr(90);
    let token_bridge = addr(80);
    let owner = addr(50);
    let sender = addr(1);
    let mut config = Config { owner, nonce: 41 };
    let store = TransactionData { amount: 700, ..blank_record() };
    let accounts = native_accounts(owner, addr(3));
    let (_, bump) = derive_u16(&sender, 4, &program_id);
    let prep = transfer_native(
        &mut config,
        &store,
        &accounts,
        &sender,
        4,
        2,
        9,
        &addr(2),
        &program_id,
        &token_bridge,
    )
    .unwrap();
    assert_eq!(config.nonce, 42);
    assert_eq!(prep.approve_amount, 700);
    assert_eq!(prep.instruction.program_id, token_bridge);
    assert_eq!(prep.instruction.accounts.len(), 17);
    assert!(prep.instruction.accounts[0].is_signer);
    assert!(prep.instruction.accounts[8].is_signer);
    assert!(!prep.instruction.accounts[1].is_signer);
    // Tag, then nonce, amount, fee little endian, target address, chain.
    let d = &prep.instruction.data;
    assert_eq!(d[0], 5);
    assert_eq!(&d[1..5], &41u32.to_le_bytes());
    assert_eq!(&d[5..13], &700u64.to_le_bytes());
    assert_eq!(&d[13..21], &9u64.to_le_bytes());
    assert_eq!(&d[21..53], &addr(2));
    assert_eq!(&d[53..55], &2u16.to_le_bytes());
    assert_eq!(prep.seeds[2], vec![bump]);

    // A caller other than the configured owner is refused.
    let mut config2 = Config { owner: addr(51), nonce: 41 };
    let r = transfer_native(
        &mut config2,
        &store,
        &accounts,
        &sender,
        4,
        2,
        9,
        &addr(2),
        &program_id,
        &token_bridge,
    );
    assert_eq!(r.err(), Some(MessengerError::InvalidCaller));
    assert_eq!(config2.nonce, 41);

    // A nonce at the top of its range is refused.
    let mut config3 = Config { owner, nonce: u32::MAX };
    let r = transfer_native(
        &mut config3,
        &store,
        &accounts,
        &sender,
        4,
        2,
        9,
        &addr(2),
        &program_id,
        &token_bridge,
    );
    assert_eq!(r.err(), Some(MessengerError::Overflow));
    assert_eq!(config3.nonce, u32::MAX);
}

#[test]
fn wrapped_transfer_marks_the_authority_as_signer() {
    let program_id = addr(90);
    let token_bridge = addr(80);
    let owner = addr(50);
    let sender = addr(1);
    let mut config = Config { owner, nonce: 1 };
    let store = TransactionData { amount: 10, ..blank_record() };
    let (pda_signer, _) = derive_u16(&sender, 4, &program_id);
    let accounts = TransferWrappedAccounts {
        zebec_eoa: owner,
        portal_config: addr(101),
        from: addr(102),
        pda_signer,
        wrapped_mint: addr(103),
        wrapped_meta: addr(104),
        portal_authority_signer: addr(105),
        bridge_config: addr(107),
        portal_message: addr(108),
        portal_emitter: addr(109),
        portal_sequence: addr(110),
        bridge_fee_collector: addr(111),
        clock: addr(112),
        rent: addr(113),
        system_program: addr(114),
        core_bridge_program: addr(115),
        token_program: addr(116),
    };
    let prep = transfer_wrapped(
        &mut config,
        &store,
        &accounts,
        &sender,
        4,
        2,
        0,
        &addr(2),
        &program_id,
        &token_bridge,
    )
    .unwrap();
    assert_eq!(prep.instruction.data[0], 4);
    assert!(prep.instruction.accounts[3].is_signer);
    assert!(!prep.instruction.accounts[3].is_writable);
    assert_eq!(config.nonce, 2);
}

#[test]
fn direct_native_transfer_validates_the_record_once() {
    let program_id = addr(90);
    let token_bridge = addr(80);
    let owner = addr(50);
    let sender = addr(1);
    let mint = addr(3);
    let mut store = blank_record();
    store.sender = sender;
    store.receiver = addr(2);
    store.token_mint = mint;
    store.amount = 100;
    store.from_chain_id = 4;
    let (pda_signer, _) = derive_u64(&sender, 4, &program_id);
    let accounts = native_accounts(owner, mint);
    let mut config = Config { owner, nonce: 1 };
    let mut status = TransactionStatus { executed: false };
    let prep = transaction_direct_transfer_native(
        &mut status,
        &mut config,
        &store,
        &accounts,
        &pda_signer,
        &sender,
        4,
        2,
        0,
        &program_id,
        &token_bridge,
    )
    .unwrap();
    assert!(status.executed);
    assert_eq!(config.nonce, 2);
    assert_eq!(&prep.instruction.data[21..53], &addr(2));

    // The consumed slot refuses a second transfer.
    let r = transaction_direct_transfer_native(
        &mut status,
        &mut config,
        &store,
        &accounts,
        &pda_signer,
        &sender,
        4,
        2,
        0,
        &program_id,
        &token_bridge,
    );
    assert_eq!(r.err(), Some(MessengerError::TransactionAlreadyExecuted));

    // A mint other than the stored one is refused.
    let mut status2 = TransactionStatus { executed: false };
    let wrong_mint = native_accounts(owner, addr(8));
    let r = transaction_direct_transfer_native(
        &mut status2,
        &mut config,
        &store,
        &wrong_mint,
        &pda_signer,
        &sender,
        4,
        2,
        0,
        &program_id,
        &token_bridge,
    );
    assert_eq!(r.err(), Some(MessengerError::DataAccountMismatch));
}
