use bridge_messenger::errors::MessengerError;
use bridge_messenger::pending::{
    create_transaction_cancel, create_transaction_instant_transfer,
    create_transaction_sender_withdraw, transaction_pause_resume, transaction_stream_update,
};
use bridge_messenger::portal::{transaction_direct_transfer_wrapped, TransferWrappedAccounts};
use bridge_messenger::state::{
    Config, Transaction, TransactionAccount, TransactionData, TransactionStatus,
};
use solana_program::pubkey::Pubkey;

fn addr(n: u8) -> [u8; 32] {
    [n; 32]
}

fn derive_u64(identity: &[u8; 32], chain: u64, program_id: &[u8; 32]) -> [u8; 32] {
    let pid = Pubkey::new_from_array(*program_id);
    Pubkey::find_program_address(&[identity, &chain.to_be_bytes()], &pid).0.to_bytes()
}

fn meta(pubkey: [u8; 32]) -> TransactionAccount {
    TransactionAccount { pubkey, is_signer: false, is_writable: true }
}

fn empty_tx() -> Transaction {
    Transaction { program_id: addr(0), accounts: Vec::new(), data: Vec::new(), did_execute: false }
}

fn stored(sender: [u8; 32], receiver: [u8; 32], mint: [u8; 32]) -> TransactionData {
    TransactionData {
        sender,
        receiver,
        data_account: addr(40),
        from_chain_id: 4,
        token_mint: mint,
        amount: 500,
        start_time: 1000,
        end_time: 2000,
        can_update: true,
        can_cancel: false,
    }
}

fn amount_blob(amount: u64) -> Vec<u8> {
    let mut d = vec![0u8; 8];
    d.extend_from_slice(&amount.to_le_bytes());
    d
}

fn update_blob(start: u64, end: u64, amount: u64) -> Vec<u8> {
    let mut d = vec![0u8; 8];
    d.extend_from_slice(&start.to_le_bytes());
    d.extend_from_slice(&end.to_le_bytes());
    d.extend_from_slice(&amount.to_le_bytes());
    d
}

#[test]
fn stream_update_executes_in_one_call() {
    let program_id = addr(90);
    let zebec = addr(60);
    let sender = addr(1);
    let receiver = addr(2);
    let mint = addr(3);
    let store = stored(sender, receiver, mint);
    let sender_pda = derive_u64(&sender, 4, &program_id);
    let receiver_pda = derive_u64(&receiver, 4, &program_id);
    let accs = vec![
        meta(store.data_account),
        meta(addr(20)),
        meta(sender_pda),
        meta(receiver_pda),
        meta(mint),
    ];
    let mut status = TransactionStatus { executed: false };
    let mut tx = empty_tx();
    let prep = transaction_stream_update(
        &mut status,
        &mut tx,
        &store,
        accs.clone(),
        update_blob(1000, 2000, 500),
        4,
        &sender,
        &program_id,
        &zebec,
    )
    .unwrap();
    assert!(status.executed);
    assert!(tx.did_execute);
    assert_eq!(prep.instruction.program_id, zebec);

    // A claimed start time that differs from the stored one is refused.
    let mut status2 = TransactionStatus { executed: false };
    let mut tx2 = empty_tx();
    let r = transaction_stream_update(
        &mut status2,
        &mut tx2,
        &store,
        accs.clone(),
        update_blob(999, 2000, 500),
        4,
        &sender,
        &program_id,
        &zebec,
    );
    assert_eq!(r.err(), Some(MessengerError::StartTimeMismatch));
    assert!(!status2.executed);

    // A wrong stream data account is refused.
    let mut wrong = accs.clone();
    wrong[0] = meta(addr(41));
    let r = transaction_stream_update(
        &mut status2,
        &mut tx2,
        &store,
        wrong,
        update_blob(1000, 2000, 500),
        4,
        &sender,
        &program_id,
        &zebec,
    );
    assert_eq!(r.err(), Some(MessengerError::DataAccountMismatch));
}

#[test]
fn pause_resume_executes_in_one_call() {
    let program_id = addr(90);
    let zebec = addr(60);
    let sender = addr(1);
    let receiver = addr(2);
    let store = stored(sender, receiver, addr(3));
    let sender_pda = derive_u64(&sender, 4, &program_id);
    let receiver_pda = derive_u64(&receiver, 4, &program_id);
    let accs = vec![meta(sender_pda), meta(receiver_pda), meta(store.data_account)];
    let mut status = TransactionStatus { executed: false };
    let mut tx = empty_tx();
    let prep = transaction_pause_resume(
        &mut status,
        &mut tx,
        &store,
        accs.clone(),
        vec![7, 7],
        4,
        &sender,
        &program_id,
        &zebec,
    )
    .unwrap();
    assert!(status.executed);
    assert_eq!(prep.instruction.data, vec![7, 7]);

    // A consumed slot refuses re-creation.
    let mut tx2 = empty_tx();
    let r = transaction_pause_resume(
        &mut status, &mut tx2, &store, accs, vec![7, 7], 4, &sender, &program_id, &zebec,
    );
    assert_eq!(r.err(), Some(MessengerError::TransactionAlreadyCreated));
}

#[test]
fn cancel_creation_validates_accounts_only() {
    let program_id = addr(90);
    let zebec = addr(60);
    let sender = addr(1);
    let receiver = addr(2);
    let mint = addr(3);
    let store = stored(sender, receiver, mint);
    let sender_pda = derive_u64(&sender, 4, &program_id);
    let receiver_pda = derive_u64(&receiver, 4, &program_id);
    let mut accs = vec![meta(addr(20)); 13];
    accs[1] = meta(receiver_pda);
    accs[2] = meta(sender_pda);
    accs[6] = meta(store.data_account);
    accs[12] = meta(mint);
    let status = TransactionStatus { executed: false };
    let mut tx = empty_tx();
    let r = create_transaction_cancel(
        &status, &mut tx, &store, accs.clone(), vec![1], &sender, &program_id, &zebec,
    );
    assert_eq!(r, Ok(()));
    assert!(!tx.did_execute);
    assert_eq!(tx.data, vec![1]);

    let r = create_transaction_cancel(
        &status, &mut tx, &store, accs, vec![1], &addr(9), &program_id, &zebec,
    );
    assert_eq!(r, Err(MessengerError::PdaSenderMismatch));
}

#[test]
fn sender_withdraw_creation_checks_the_amount() {
    let program_id = addr(90);
    let zebec = addr(60);
    let sender = addr(1);
    let mint = addr(3);
    let store = stored(sender, addr(2), mint);
    let sender_pda = derive_u64(&sender, 4, &program_id);
    let mut accs = vec![meta(addr(20)); 8];
    accs[2] = meta(sender_pda);
    accs[7] = meta(mint);
    let status = TransactionStatus { executed: false };
    let mut tx = empty_tx();
    assert_eq!(
        create_transaction_sender_withdraw(
            &status,
            &mut tx,
            &store,
            accs.clone(),
            amount_blob(500),
            &sender,
            &program_id,
            &zebec
        ),
        Ok(())
    );
    assert_eq!(
        create_transaction_sender_withdraw(
            &status,
            &mut tx,
            &store,
            accs,
            amount_blob(499),
            &sender,
            &program_id,
            &zebec
        ),
        Err(MessengerError::AmountMismatch)
    );
}

#[test]
fn instant_transfer_creation_checks_both_derived_accounts() {
    let program_id = addr(90);
    let zebec = addr(60);
    let sender = addr(1);
    let receiver = addr(2);
    let mint = addr(3);
    let store = stored(sender, receiver, mint);
    let sender_pda = derive_u64(&sender, 4, &program_id);
    let receiver_pda = derive_u64(&receiver, 4, &program_id);
    let mut accs = vec![meta(addr(20)); 9];
    accs[1] = meta(receiver_pda);
    accs[2] = meta(sender_pda);
    accs[8] = meta(mint);
    let status = TransactionStatus { executed: false };
    let mut tx = empty_tx();
    assert_eq!(
        create_transaction_instant_transfer(
            &status,
            &mut tx,
            &store,
            accs.clone(),
            amount_blob(500),
            &sender,
            &program_id,
            &zebec
        ),
        Ok(())
    );
    let mut wrong = accs.clone();
    wrong[1] = meta(addr(8));
    assert_eq!(
        create_transaction_instant_transfer(
            &status,
            &mut tx,
            &store,
            wrong,
            amount_blob(500),
            &sender,
            &program_id,
            &zebec
        ),
        Err(MessengerError::ReceiverDerivedKeyMismatch)
    );
}

#[test]
fn wrapped_direct_transfer_validates_and_burns_the_slot() {
    let program_id = addr(90);
    let token_bridge = addr(80);
    let owner = addr(50);
    let sender = addr(1);
    let store = stored(sender, addr(2), addr(3));
    let pda_signer = derive_u64(&sender, 4, &program_id);
    let accounts = TransferWrappedAccounts {
        zebec_eoa: owner,
        portal_config: addr(101),
        from: addr(102),
        pda_signer,
        wrapped_mint: addr(103),
        wrapped_meta: addr(104),
        portal_authority_signer: addr(105),
        bridge_config: addr(107),
        portal_message: addr(108),
        portal_emitter: addr(109),
        portal_sequence: addr(110),
        bridge_fee_collector: addr(111),
        clock: addr(112),
        rent: addr(113),
        system_program: addr(114),
        core_bridge_program: addr(115),
        token_program: addr(116),
    };
    let mut config = Config { owner, nonce: 1 };
    let mut status = TransactionStatus { executed: false };
    let prep = transaction_direct_transfer_wrapped(
        &mut status,
        &mut config,
        &store,
        &accounts,
        &sender,
        4,
        2,
        0,
        &program_id,
        &token_bridge,
    )
    .unwrap();
    assert!(status.executed);
    assert_eq!(config.nonce, 2);
    assert_eq!(prep.approve_amount, 500);
    // The transfer goes to the stored receiver.
    assert_eq!(&prep.instruction.data[21..53], &addr(2));

    // A supplied identity other than the stored sender is refused.
    let mut status2 = TransactionStatus { executed: false };
    let r = transaction_direct_transfer_wrapped(
        &mut status2,
        &mut config,
        &store,
        &accounts,
        &addr(9),
        4,
        2,
        0,
        &program_id,
        &token_bridge,
    );
    assert_eq!(r.err(), Some(MessengerError::PdaSenderMismatch));
}
