//! Direct transfers through the asset bridge.
//!
//! A direct transfer validates the stored record in one call, then builds
//! the asset-bridge instruction — account list, flags, and argument bytes —
//! to be invoked under the program's derived authority, together with the
//! token-delegation amount the bridge requires beforehand.
use vstd::prelude::*;
use vstd::bytes::{spec_u16_to_le_bytes, spec_u32_to_le_bytes, spec_u64_to_le_bytes};

use crate::bytes::{addr_eq, spec_u16_to_be_bytes};
use crate::errors::MessengerError;
use crate::payload::{push_bytes32, push_u16_le, push_u32_le, push_u64_le};
use crate::pending::{pda_matches, spec_pda_matches};
use crate::state::{Config, Instruction, TransactionAccount, TransactionData, TransactionStatus};
use crate::vaa::{derive_signer_seeds, spec_identity_pda_u16, SignerSeeds};

verus! {

/// Instruction tag of the asset bridge's native-asset transfer.
pub const TRANSFER_NATIVE_INSTRUCTION: u8 = 5;

/// Instruction tag of the asset bridge's wrapped-asset transfer.
pub const TRANSFER_WRAPPED_INSTRUCTION: u8 = 4;

/// One entry of an instruction account list.
pub open spec fn spec_meta(
    pubkey: [u8; 32],
    is_signer: bool,
    is_writable: bool,
) -> TransactionAccount {
    TransactionAccount { pubkey, is_signer, is_writable }
}

/// The argument bytes of an asset-bridge transfer: the instruction tag,
/// then nonce, amount, fee, target address, and target chain.
pub open spec fn spec_transfer_data(
    tag: u8,
    nonce: u32,
    amount: u64,
    fee: u64,
    target_address: Seq<u8>,
    target_chain: u16,
) -> Seq<u8> {
    seq![tag] + spec_u32_to_le_bytes(nonce) + spec_u64_to_le_bytes(amount) + spec_u64_to_le_bytes(
        fee,
    ) + target_address + spec_u16_to_le_bytes(target_chain)
}

/// Build the argument bytes of an asset-bridge transfer.
fn build_transfer_data(
    tag: u8,
    nonce: u32,
    amount: u64,
    fee: u64,
    target_address: &[u8; 32],
    target_chain: u16,
) -> (r: Vec<u8>)
    ensures
        r@ == spec_transfer_data(tag, nonce, amount, fee, target_address@, target_chain),
{
    let mut r: Vec<u8> = Vec::new();
    r.push(tag);
    push_u32_le(&mut r, nonce);
    push_u64_le(&mut r, amount);
    push_u64_le(&mut r, fee);
    push_bytes32(&mut r, target_address);
    push_u16_le(&mut r, target_chain);
    proof {
        assert(r@ =~= spec_transfer_data(tag, nonce, amount, fee, target_address@, target_chain));
    }
    r
}

/// The accounts of a native-asset transfer through the asset bridge.
pub struct TransferNativeAccounts {
    pub zebec_eoa: [u8; 32],
    pub portal_config: [u8; 32],
    pub from: [u8; 32],
    pub mint: [u8; 32],
    pub portal_custody: [u8; 32],
    pub portal_authority_signer: [u8; 32],
    pub portal_custody_signer: [u8; 32],
    pub bridge_config: [u8; 32],
    pub portal_message: [u8; 32],
    pub portal_emitter: [u8; 32],
    pub portal_sequence: [u8; 32],
    pub bridge_fee_collector: [u8; 32],
    pub clock: [u8; 32],
    pub rent: [u8; 32],
    pub system_program: [u8; 32],
    pub core_bridge_program: [u8; 32],
    pub token_program: [u8; 32],
}

/// The account list of a native-asset transfer, in instruction order with
/// each entry's signer and writability flags.
pub open spec fn spec_native_transfer_accounts(a: TransferNativeAccounts) -> Seq<
    TransactionAccount,
> {
    seq![
        spec_meta(a.zebec_eoa, true, true),
        spec_meta(a.portal_config, false, false),
        spec_meta(a.from, false, true),
        spec_meta(a.mint, false, true),
        spec_meta(a.portal_custody, false, true),
        spec_meta(a.portal_authority_signer, false, false),
        spec_meta(a.portal_custody_signer, false, false),
        spec_meta(a.bridge_config, false, true),
        spec_meta(a.portal_message, true, true),
        spec_meta(a.portal_emitter, false, false),
        spec_meta(a.portal_sequence, false, true),
        spec_meta(a.bridge_fee_collector, false, true),
        spec_meta(a.clock, false, false),
        spec_meta(a.rent, false, false),
        spec_meta(a.system_program, false, false),
        spec_meta(a.core_bridge_program, false, false),
        spec_meta(a.token_program, false, false),
    ]
}

/// Build the account list of a native-asset transfer.
fn build_native_transfer_accounts(a: &TransferNativeAccounts) -> (r: Vec<TransactionAccount>)
    ensures
        r@ == spec_native_transfer_accounts(*a),
{
    let mut r: Vec<TransactionAccount> = Vec::new();
    r.push(TransactionAccount { pubkey: a.zebec_eoa, is_signer: true, is_writable: true });
    r.push(TransactionAccount { pubkey: a.portal_config, is_signer: false, is_writable: false });
    r.push(TransactionAccount { pubkey: a.from, is_signer: false, is_writable: true });
    r.push(TransactionAccount { pubkey: a.mint, is_signer: false, is_writable: true });
    r.push(TransactionAccount { pubkey: a.portal_custody, is_signer: false, is_writable: true });
    r.push(
        TransactionAccount {
            pubkey: a.portal_authority_signer,
            is_signer: false,
            is_writable: false,
        },
    );
    r.push(
        TransactionAccount {
            pubkey: a.portal_custody_signer,
            is_signer: false,
            is_writable: false,
        },
    );
    r.push(TransactionAccount { pubkey: a.bridge_config, is_signer: false, is_writable: true });
    r.push(TransactionAccount { pubkey: a.portal_message, is_signer: true, is_writable: true });
    r.push(TransactionAccount { pubkey: a.portal_emitter, is_signer: false, is_writable: false });
    r.push(TransactionAccount { pubkey: a.portal_sequence, is_signer: false, is_writable: true });
    r.push(
        TransactionAccount { pubkey: a.bridge_fee_collector, is_signer: false, is_writable: true },
    );
    r.push(TransactionAccount { pubkey: a.clock, is_signer: false, is_writable: false });
    r.push(TransactionAccount { pubkey: a.rent, is_signer: false, is_writable: false });
    r.push(TransactionAccount { pubkey: a.system_program, is_signer: false, is_writable: false });
    r.push(
        TransactionAccount { pubkey: a.core_bridge_program, is_signer: false, is_writable: false },
    );
    r.push(TransactionAccount { pubkey: a.token_program, is_signer: false, is_writable: false });
    proof {
        assert(r@ =~= spec_native_transfer_accounts(*a));
    }
    r
}

/// An asset-bridge transfer ready to perform: the amount to delegate to the
/// bridge's authority, the instruction to invoke, and the signing seeds.
pub struct PortalTransfer {
    pub approve_amount: u64,
    pub instruction: Instruction,
    pub signer: [u8; 32],
    pub seeds: Vec<Vec<u8>>,
}

/// Outcome of building an asset-bridge transfer: the caller must be the
/// configured owner, the signing authority must exist, and the outbound
/// nonce must not wrap.
pub open spec fn spec_portal_transfer_outcome(
    owner: Seq<u8>,
    zebec_eoa: Seq<u8>,
    nonce: u32,
    sender: Seq<u8>,
    sender_chain: u16,
    program_id: Seq<u8>,
) -> Result<(), MessengerError> {
    if owner != zebec_eoa {
        Err(MessengerError::InvalidCaller)
    } else if spec_identity_pda_u16(sender, sender_chain, program_id) is None {
        Err(MessengerError::InvalidCPI)
    } else if nonce == u32::MAX {
        Err(MessengerError::Overflow)
    } else {
        Ok(())
    }
}

/// Build a native-asset transfer through the asset bridge: delegate the
/// stored amount, assemble the transfer instruction with the configured
/// nonce, and advance the nonce. On any rejection nothing changes.
pub fn transfer_native(
    config: &mut Config,
    data_storage: &TransactionData,
    accounts: &TransferNativeAccounts,
    sender: &[u8; 32],
    sender_chain: u16,
    target_chain: u16,
    fee: u64,
    receiver: &[u8; 32],
    program_id: &[u8; 32],
    token_bridge: &[u8; 32],
) -> (r: Result<PortalTransfer, MessengerError>)
    ensures
        r is Ok <==> spec_portal_transfer_outcome(
            old(config).owner@,
            accounts.zebec_eoa@,
            old(config).nonce,
            sender@,
            sender_chain,
            program_id@,
        ) is Ok,
        r matches Err(e) ==> Err::<(), MessengerError>(e) == spec_portal_transfer_outcome(
            old(config).owner@,
            accounts.zebec_eoa@,
            old(config).nonce,
            sender@,
            sender_chain,
            program_id@,
        ),
        r is Err ==> *final(config) == *old(config),
        r is Ok ==> final(config).nonce == old(config).nonce + 1 && final(config).owner == old(
            config,
        ).owner,
        r matches Ok(prep) ==> {
            let p = spec_identity_pda_u16(sender@, sender_chain, program_id@).unwrap();
            &&& prep.approve_amount == data_storage.amount
            &&& prep.instruction.program_id@ == token_bridge@
            &&& prep.instruction.accounts@ == spec_native_transfer_accounts(*accounts)
            &&& prep.instruction.data@ == spec_transfer_data(
                TRANSFER_NATIVE_INSTRUCTION,
                old(config).nonce,
                data_storage.amount,
                fee,
                receiver@,
                target_chain,
            )
            &&& prep.signer@ == p.0
            &&& prep.seeds.deep_view() == seq![
                sender@,
                spec_u16_to_be_bytes(sender_chain),
                seq![p.1],
            ]
        },
{
    let amount = data_storage.amount;
    if !addr_eq(&config.owner, &accounts.zebec_eoa) {
        return Err(MessengerError::InvalidCaller);
    }
    let seeds = match derive_signer_seeds(sender, sender_chain, program_id) {
        None => {
            return Err(MessengerError::InvalidCPI);
        },
        Some(ss) => ss,
    };
    let new_nonce = match config.nonce.checked_add(1) {
        None => {
            return Err(MessengerError::Overflow);
        },
        Some(val) => val,
    };
    let data = build_transfer_data(
        TRANSFER_NATIVE_INSTRUCTION,
        config.nonce,
        amount,
        fee,
        receiver,
        target_chain,
    );
    let instruction = Instruction {
        program_id: *token_bridge,
        accounts: build_native_transfer_accounts(accounts),
        data,
    };
    config.nonce = new_nonce;
    Ok(
        PortalTransfer {
            approve_amount: amount,
            instruction,
            signer: seeds.signer,
            seeds: seeds.seeds,
        },
    )
}

/// The accounts of a wrapped-asset transfer through the asset bridge.
pub struct TransferWrappedAccounts {
    pub zebec_eoa: [u8; 32],
    pub portal_config: [u8; 32],
    pub from: [u8; 32],
    pub pda_signer: [u8; 32],
    pub wrapped_mint: [u8; 32],
    pub wrapped_meta: [u8; 32],
    pub portal_authority_signer: [u8; 32],
    pub bridge_config: [u8; 32],
    pub portal_message: [u8; 32],
    pub portal_emitter: [u8; 32],
    pub portal_sequence: [u8; 32],
    pub bridge_fee_collector: [u8; 32],
    pub clock: [u8; 32],
    pub rent: [u8; 32],
    pub system_program: [u8; 32],
    pub core_bridge_program: [u8; 32],
    pub token_program: [u8; 32],
}

/// The account list of a wrapped-asset transfer, in instruction order. The
/// derived authority itself stands in the list as a signer.
pub open spec fn spec_wrapped_transfer_accounts(a: TransferWrappedAccounts) -> Seq<
    TransactionAccount,
> {
    seq![
        spec_meta(a.zebec_eoa, true, true),
        spec_meta(a.portal_config, false, false),
        spec_meta(a.from, false, true),
        spec_meta(a.pda_signer, true, false),
        spec_meta(a.wrapped_mint, false, true),
        spec_meta(a.wrapped_meta, false, false),
        spec_meta(a.portal_authority_signer, false, false),
        spec_meta(a.bridge_config, false, true),
        spec_meta(a.portal_message, true, true),
        spec_meta(a.portal_emitter, false, false),
        spec_meta(a.portal_sequence, false, true),
        spec_meta(a.bridge_fee_collector, false, true),
        spec_meta(a.clock, false, false),
        spec_meta(a.rent, false, false),
        spec_meta(a.system_program, false, false),
        spec_meta(a.core_bridge_program, false, false),
        spec_meta(a.token_program, false, false),
    ]
}

/// Build the account list of a wrapped-asset transfer.
fn build_wrapped_transfer_accounts(a: &TransferWrappedAccounts) -> (r: Vec<TransactionAccount>)
    ensures
        r@ == spec_wrapped_transfer_accounts(*a),
{
    let mut r: Vec<TransactionAccount> = Vec::new();
    r.push(TransactionAccount { pubkey: a.zebec_eoa, is_signer: true, is_writable: true });
    r.push(TransactionAccount { pubkey: a.portal_config, is_signer: false, is_writable: false });
    r.push(TransactionAccount { pubkey: a.from, is_signer: false, is_writable: true });
    r.push(TransactionAccount { pubkey: a.pda_signer, is_signer: true, is_writable: false });
    r.push(TransactionAccount { pubkey: a.wrapped_mint, is_signer: false, is_writable: true });
    r.push(TransactionAccount { pubkey: a.wrapped_meta, is_signer: false, is_writable: false });
    r.push(
        TransactionAccount {
            pubkey: a.portal_authority_signer,
            is_signer: false,
            is_writable: false,
        },
    );
    r.push(TransactionAccount { pubkey: a.bridge_config, is_signer: false, is_writable: true });
    r.push(TransactionAccount { pubkey: a.portal_message, is_signer: true, is_writable: true });
    r.push(TransactionAccount { pubkey: a.portal_emitter, is_signer: false, is_writable: false });
    r.push(TransactionAccount { pubkey: a.portal_sequence, is_signer: false, is_writable: true });
    r.push(
        TransactionAccount { pubkey: a.bridge_fee_collector, is_signer: false, is_writable: true },
    );
    r.push(TransactionAccount { pubkey: a.clock, is_signer: false, is_writable: false });
    r.push(TransactionAccount { pubkey: a.rent, is_signer: false, is_writable: false });
    r.push(TransactionAccount { pubkey: a.system_program, is_signer: false, is_writable: false });
    r.push(
        TransactionAccount { pubkey: a.core_bridge_program, is_signer: false, is_writable: false },
    );
    r.push(TransactionAccount { pubkey: a.token_program, is_signer: false, is_writable: false });
    proof {
        assert(r@ =~= spec_wrapped_transfer_accounts(*a));
    }
    r
}

/// Build a wrapped-asset transfer through the asset bridge. On any
/// rejection nothing changes.
pub fn transfer_wrapped(
    config: &mut Config,
    data_storage: &TransactionData,
    accounts: &TransferWrappedAccounts,
    sender: &[u8; 32],
    sender_chain: u16,
    target_chain: u16,
    fee: u64,
    receiver: &[u8; 32],
    program_id: &[u8; 32],
    token_bridge: &[u8; 32],
) -> (r: Result<PortalTransfer, MessengerError>)
    ensures
        r is Ok <==> spec_portal_transfer_outcome(
            old(config).owner@,
            accounts.zebec_eoa@,
            old(config).nonce,
            sender@,
            sender_chain,
            program_id@,
        ) is Ok,
        r matches Err(e) ==> Err::<(), MessengerError>(e) == spec_portal_transfer_outcome(
            old(config).owner@,
            accounts.zebec_eoa@,
            old(config).nonce,
            sender@,
            sender_chain,
            program_id@,
        ),
        r is Err ==> *final(config) == *old(config),
        r is Ok ==> final(config).nonce == old(config).nonce + 1 && final(config).owner == old(
            config,
        ).owner,
        r matches Ok(prep) ==> {
            let p = spec_identity_pda_u16(sender@, sender_chain, program_id@).unwrap();
            &&& prep.approve_amount == data_storage.amount
            &&& prep.instruction.program_id@ == token_bridge@
            &&& prep.instruction.accounts@ == spec_wrapped_transfer_accounts(*accounts)
            &&& prep.instruction.data@ == spec_transfer_data(
                TRANSFER_WRAPPED_INSTRUCTION,
                old(config).nonce,
                data_storage.amount,
                fee,
                receiver@,
                target_chain,
            )
            &&& prep.signer@ == p.0
            &&& prep.seeds.deep_view() == seq![
                sender@,
                spec_u16_to_be_bytes(sender_chain),
                seq![p.1],
            ]
        },
{
    let amount = data_storage.amount;
    if !addr_eq(&config.owner, &accounts.zebec_eoa) {
        return Err(MessengerError::InvalidCaller);
    }
    let seeds = match derive_signer_seeds(sender, sender_chain, program_id) {
        None => {
            return Err(MessengerError::InvalidCPI);
        },
        Some(ss) => ss,
    };
    let new_nonce = match config.nonce.checked_add(1) {
        None => {
            return Err(MessengerError::Overflow);
        },
        Some(val) => val,
    };
    let data = build_transfer_data(
        TRANSFER_WRAPPED_INSTRUCTION,
        config.nonce,
        amount,
        fee,
        receiver,
        target_chain,
    );
    let instruction = Instruction {
        program_id: *token_bridge,
        accounts: build_wrapped_transfer_accounts(accounts),
        data,
    };
    config.nonce = new_nonce;
    Ok(
        PortalTransfer {
            approve_amount: amount,
            instruction,
            signer: seeds.signer,
            seeds: seeds.seeds,
        },
    )
}

/// Outcome of a one-call native-asset direct transfer: the one-time gate,
/// the stored mint, the sender, the sender's derived authority, then the
/// transfer stages.
pub open spec fn spec_direct_transfer_native_outcome(
    status_executed: bool,
    store: TransactionData,
    mint: Seq<u8>,
    sender: Seq<u8>,
    pda_signer: Seq<u8>,
    owner: Seq<u8>,
    zebec_eoa: Seq<u8>,
    nonce: u32,
    chain_id: u16,
    program_id: Seq<u8>,
) -> Result<(), MessengerError> {
    if status_executed {
        Err(MessengerError::TransactionAlreadyExecuted)
    } else if store.token_mint@ != mint {
        Err(MessengerError::DataAccountMismatch)
    } else if sender != store.sender@ {
        Err(MessengerError::PdaSenderMismatch)
    } else if !spec_pda_matches(sender, store.from_chain_id, program_id, pda_signer) {
        Err(MessengerError::SenderDerivedKeyMismatch)
    } else {
        spec_portal_transfer_outcome(owner, zebec_eoa, nonce, sender, chain_id, program_id)
    }
}

/// Create and execute a native-asset direct transfer in one call: validate
/// the stored record, burn the per-sequence status, and build the bridge
/// transfer of the stored amount to the stored receiver. On any rejection
/// nothing changes.
pub fn transaction_direct_transfer_native(
    txn_status: &mut TransactionStatus,
    config: &mut Config,
    data_storage: &TransactionData,
    accounts: &TransferNativeAccounts,
    pda_signer: &[u8; 32],
    sender: &[u8; 32],
    chain_id: u16,
    target_chain: u16,
    fee: u64,
    program_id: &[u8; 32],
    token_bridge: &[u8; 32],
) -> (r: Result<PortalTransfer, MessengerError>)
    ensures
        r is Ok <==> spec_direct_transfer_native_outcome(
            old(txn_status).executed,
            *data_storage,
            accounts.mint@,
            sender@,
            pda_signer@,
            old(config).owner@,
            accounts.zebec_eoa@,
            old(config).nonce,
            chain_id,
            program_id@,
        ) is Ok,
        r matches Err(e) ==> Err::<(), MessengerError>(e)
            == spec_direct_transfer_native_outcome(
            old(txn_status).executed,
            *data_storage,
            accounts.mint@,
            sender@,
            pda_signer@,
            old(config).owner@,
            accounts.zebec_eoa@,
            old(config).nonce,
            chain_id,
            program_id@,
        ),
        r is Err ==> {
            &&& *final(txn_status) == *old(txn_status)
            &&& *final(config) == *old(config)
        },
        r is Ok ==> {
            &&& final(txn_status).executed
            &&& final(config).nonce == old(config).nonce + 1
            &&& final(config).owner == old(config).owner
        },
        r matches Ok(prep) ==> {
            let p = spec_identity_pda_u16(sender@, chain_id, program_id@).unwrap();
            &&& prep.approve_amount == data_storage.amount
            &&& prep.instruction.program_id@ == token_bridge@
            &&& prep.instruction.accounts@ == spec_native_transfer_accounts(*accounts)
            &&& prep.instruction.data@ == spec_transfer_data(
                TRANSFER_NATIVE_INSTRUCTION,
                old(config).nonce,
                data_storage.amount,
                fee,
                data_storage.receiver@,
                target_chain,
            )
            &&& prep.signer@ == p.0
            &&& prep.seeds.deep_view() == seq![
                sender@,
                spec_u16_to_be_bytes(chain_id),
                seq![p.1],
            ]
        },
{
    if txn_status.executed {
        return Err(MessengerError::TransactionAlreadyExecuted);
    }
    if !addr_eq(&data_storage.token_mint, &accounts.mint) {
        return Err(MessengerError::DataAccountMismatch);
    }
    if !addr_eq(sender, &data_storage.sender) {
        return Err(MessengerError::PdaSenderMismatch);
    }
    if !pda_matches(sender, data_storage.from_chain_id, program_id, pda_signer) {
        return Err(MessengerError::SenderDerivedKeyMismatch);
    }
    let receiver = data_storage.receiver;
    let prep = transfer_native(
        config,
        data_storage,
        accounts,
        sender,
        chain_id,
        target_chain,
        fee,
        &receiver,
        program_id,
        token_bridge,
    )?;
    txn_status.executed = true;
    Ok(prep)
}

/// Outcome of a one-call wrapped-asset direct transfer.
pub open spec fn spec_direct_transfer_wrapped_outcome(
    status_executed: bool,
    store: TransactionData,
    sender: Seq<u8>,
    pda_signer: Seq<u8>,
    owner: Seq<u8>,
    zebec_eoa: Seq<u8>,
    nonce: u32,
    sender_chain: u16,
    program_id: Seq<u8>,
) -> Result<(), MessengerError> {
    if status_executed {
        Err(MessengerError::TransactionAlreadyExecuted)
    } else if sender != store.sender@ {
        Err(MessengerError::PdaSenderMismatch)
    } else if !spec_pda_matches(sender, store.from_chain_id, program_id, pda_signer) {
        Err(MessengerError::SenderDerivedKeyMismatch)
    } else {
        spec_portal_transfer_outcome(owner, zebec_eoa, nonce, sender, sender_chain, program_id)
    }
}

/// Create and execute a wrapped-asset direct transfer in one call. On any
/// rejection nothing changes.
pub fn transaction_direct_transfer_wrapped(
    txn_status: &mut TransactionStatus,
    config: &mut Config,
    data_storage: &TransactionData,
    accounts: &TransferWrappedAccounts,
    sender: &[u8; 32],
    sender_chain: u16,
    target_chain: u16,
    fee: u64,
    program_id: &[u8; 32],
    token_bridge: &[u8; 32],
) -> (r: Result<PortalTransfer, MessengerError>)
    ensures
        r is Ok <==> spec_direct_transfer_wrapped_outcome(
            old(txn_status).executed,
            *data_storage,
            sender@,
            accounts.pda_signer@,
            old(config).owner@,
            accounts.zebec_eoa@,
            old(config).nonce,
            sender_chain,
            program_id@,
        ) is Ok,
        r matches Err(e) ==> Err::<(), MessengerError>(e)
            == spec_direct_transfer_wrapped_outcome(
            old(txn_status).executed,
            *data_storage,
            sender@,
            accounts.pda_signer@,
            old(config).owner@,
            accounts.zebec_eoa@,
            old(config).nonce,
            sender_chain,
            program_id@,
        ),
        r is Err ==> {
            &&& *final(txn_status) == *old(txn_status)
            &&& *final(config) == *old(config)
        },
        r is Ok ==> {
            &&& final(txn_status).executed
            &&& final(config).nonce == old(config).nonce + 1
            &&& final(config).owner == old(config).owner
        },
        r matches Ok(prep) ==> {
            let p = spec_identity_pda_u16(sender@, sender_chain, program_id@).unwrap();
            &&& prep.approve_amount == data_storage.amount
            &&& prep.instruction.program_id@ == token_bridge@
            &&& prep.instruction.accounts@ == spec_wrapped_transfer_accounts(*accounts)
            &&& prep.instruction.data@ == spec_transfer_data(
                TRANSFER_WRAPPED_INSTRUCTION,
                old(config).nonce,
                data_storage.amount,
                fee,
                data_storage.receiver@,
                target_chain,
            )
            &&& prep.signer@ == p.0
            &&& prep.seeds.deep_view() == seq![
                sender@,
                spec_u16_to_be_bytes(sender_chain),
                seq![p.1],
            ]
        },
{
    if txn_status.executed {
        return Err(MessengerError::TransactionAlreadyExecuted);
    }
    if !addr_eq(sender, &data_storage.sender) {
        return Err(MessengerError::PdaSenderMismatch);
    }
    if !pda_matches(sender, data_storage.from_chain_id, program_id, &accounts.pda_signer) {
        return Err(MessengerError::SenderDerivedKeyMismatch);
    }
    let receiver = data_storage.receiver;
    let prep = transfer_wrapped(
        config,
        data_storage,
        accounts,
        sender,
        sender_chain,
        target_chain,
        fee,
        &receiver,
        program_id,
        token_bridge,
    )?;
    txn_status.executed = true;
    Ok(prep)
}

} // verus!
