//! Top-level inbound operations: initialization, emitter registration,
//! message storage, and derived-account bootstrap.
//!
//! Each operation authenticates the attested message, enforces the
//! per-sender sequence order, and dispatches the payload to its decoder.
//! Every rejection leaves all records untouched.
use vstd::prelude::*;
use vstd::slice::slice_to_vec;
use vstd::string::StringSliceAdditionalSpecFns;
use vstd::utf8::encode_utf8;

use crate::bytes::{addr_eq, be256_is_one, read_bytes32, spec_be256_is_one, spec_u16_to_be_bytes,
    u16_to_be_bytes_vec};
use crate::errors::MessengerError;
use crate::ext::{find_program_address, spec_find_program_address, spec_is_hex};
use crate::record::{
    process_cancel_stream, process_deposit, process_direct_transfer, process_instant_transfer,
    process_pause, process_stream, process_update_stream, process_withdraw,
    spec_cancel_stream_record, spec_deposit_record, spec_direct_transfer_record,
    spec_instant_transfer_record, spec_pause_record, spec_process_cancel_stream,
    spec_process_deposit, spec_process_direct_transfer, spec_process_instant_transfer,
    spec_process_pause, spec_process_stream, spec_process_update_stream, spec_process_withdraw,
    spec_stream_record, spec_update_stream_record, spec_withdraw_record,
};
use crate::payload::{
    OP_CANCEL_STREAM, OP_DEPOSIT, OP_DIRECT_TRANSFER, OP_INIT_PDA, OP_INIT_PDA_TOKEN,
    OP_INSTANT_TRANSFER, OP_PAUSE, OP_STREAM_CREATE, OP_STREAM_UPDATE, OP_WITHDRAW,
    pfield_bytes32,
};
use crate::state::{Config, Count, EmitterAddrAccount, ProcessedVAA, TransactionData};
use crate::vaa::{authenticate, spec_authenticate, MessageData};

verus! {

/// Length in bytes of a registered emitter address in hexadecimal text:
/// two digits for each byte of a 20-byte remote address.
pub const EVM_CHAIN_ADDRESS_LENGTH: usize = 40;

/// Create the global configuration: the administrative owner, and the
/// outbound nonce starting at one.
pub fn initialize(owner: &[u8; 32]) -> (c: Config)
    ensures
        c.owner@ == owner@,
        c.nonce == 1,
{
    Config { owner: *owner, nonce: 1 }
}

/// Register the trusted emitter of a remote chain. The address must be
/// hexadecimal text of the expected length.
pub fn register_chain(chain_id: u16, emitter_addr: String) -> (r: Result<
    EmitterAddrAccount,
    MessengerError,
>)
    ensures
        r is Ok <==> encode_utf8(emitter_addr@).len() == EVM_CHAIN_ADDRESS_LENGTH,
        r matches Ok(e) ==> e.chain_id == chain_id && e.emitter_addr@ == emitter_addr@,
        r is Err ==> r == Err::<EmitterAddrAccount, MessengerError>(
            MessengerError::InvalidEmitterAddress,
        ),
{
    let text_bytes = emitter_addr.as_str().as_bytes();
    proof {
        assert(text_bytes@ == encode_utf8(emitter_addr@));
    }
    if text_bytes.len() != EVM_CHAIN_ADDRESS_LENGTH {
        return Err(MessengerError::InvalidEmitterAddress);
    }
    Ok(EmitterAddrAccount { chain_id, emitter_addr })
}

/// Outcome of storing an inbound message: authentication, then the sequence
/// counter, then the opcode dispatch, each stage with its own errors.
pub open spec fn spec_store_msg_outcome(
    m: MessageData,
    account: Seq<u8>,
    e: EmitterAddrAccount,
    core_bridge: Seq<u8>,
    old_count: u64,
    current_count: u64,
    sender: Seq<u8>,
) -> Result<(), MessengerError> {
    let p = m.payload@;
    if spec_authenticate(m, account, e, core_bridge) is Err {
        spec_authenticate(m, account, e, core_bridge)
    } else if p.len() < 1 {
        Err(MessengerError::InvalidPayload)
    } else if old_count == u64::MAX {
        Err(MessengerError::Overflow)
    } else if old_count + 1 != current_count {
        Err(MessengerError::InvalidCount)
    } else if p[0] == OP_STREAM_CREATE {
        spec_process_stream(p, sender)
    } else if p[0] == OP_DEPOSIT {
        spec_process_deposit(p, sender)
    } else if p[0] == OP_PAUSE {
        spec_process_pause(p, sender)
    } else if p[0] == OP_WITHDRAW {
        spec_process_withdraw(p, sender)
    } else if p[0] == OP_INSTANT_TRANSFER {
        spec_process_instant_transfer(p, sender)
    } else if p[0] == OP_STREAM_UPDATE {
        spec_process_update_stream(p, sender)
    } else if p[0] == OP_CANCEL_STREAM {
        spec_process_cancel_stream(p, sender)
    } else if p[0] == OP_DIRECT_TRANSFER {
        spec_process_direct_transfer(p, sender)
    } else {
        Err(MessengerError::InvalidPayload)
    }
}

/// The transaction record an accepted message leaves behind, by opcode.
pub open spec fn spec_stored_record(
    p: Seq<u8>,
    from_chain_id: u16,
    old: TransactionData,
    new: TransactionData,
) -> bool {
    &&& p[0] == OP_STREAM_CREATE ==> spec_stream_record(p, from_chain_id, old, new)
    &&& p[0] == OP_DEPOSIT ==> spec_deposit_record(p, from_chain_id, old, new)
    &&& p[0] == OP_PAUSE ==> spec_pause_record(p, from_chain_id, old, new)
    &&& p[0] == OP_WITHDRAW ==> spec_withdraw_record(p, from_chain_id, old, new)
    &&& p[0] == OP_INSTANT_TRANSFER ==> spec_instant_transfer_record(p, from_chain_id, old, new)
    &&& p[0] == OP_STREAM_UPDATE ==> spec_update_stream_record(p, from_chain_id, old, new)
    &&& p[0] == OP_CANCEL_STREAM ==> spec_cancel_stream_record(p, from_chain_id, old, new)
    &&& p[0] == OP_DIRECT_TRANSFER ==> spec_direct_transfer_record(p, from_chain_id, old, new)
}

/// Store an inbound message: authenticate it, advance and check the
/// sender's sequence counter, and decode the payload into the transaction
/// record. On any rejection every record is left untouched.
pub fn store_msg(
    vaa: &MessageData,
    vaa_account: &[u8; 32],
    emitter: &EmitterAddrAccount,
    core_bridge: &[u8; 32],
    txn_count: &mut Count,
    processed_vaa: &mut ProcessedVAA,
    data_storage: &mut TransactionData,
    current_count: u64,
    sender: &[u8; 32],
) -> (r: Result<(), MessengerError>)
    requires
        spec_is_hex(encode_utf8(emitter.emitter_addr@)),
    ensures
        r == spec_store_msg_outcome(
            *vaa,
            vaa_account@,
            *emitter,
            core_bridge@,
            old(txn_count).count,
            current_count,
            sender@,
        ),
        r is Err ==> {
            &&& *final(txn_count) == *old(txn_count)
            &&& *final(processed_vaa) == *old(processed_vaa)
            &&& *final(data_storage) == *old(data_storage)
        },
        r is Ok ==> {
            &&& final(txn_count).count == old(txn_count).count + 1
            &&& final(txn_count).count == current_count
            &&& final(processed_vaa).transaction_count == current_count
            &&& spec_stored_record(
                vaa.payload@,
                vaa.emitter_chain,
                *old(data_storage),
                *final(data_storage),
            )
        },
{
    authenticate(vaa, vaa_account, emitter, core_bridge)?;
    if vaa.payload.len() < 1 {
        return Err(MessengerError::InvalidPayload);
    }
    let new_count = match txn_count.count.checked_add(1) {
        None => {
            return Err(MessengerError::Overflow);
        },
        Some(val) => val,
    };
    if new_count != current_count {
        return Err(MessengerError::InvalidCount);
    }
    let code = vaa.payload[0];
    let mut record = *data_storage;
    let dispatched: Result<(), MessengerError> = if code == OP_STREAM_CREATE {
        process_stream(&vaa.payload, vaa.emitter_chain, &mut record, sender)
    } else if code == OP_DEPOSIT {
        process_deposit(&vaa.payload, vaa.emitter_chain, &mut record, sender)
    } else if code == OP_PAUSE {
        process_pause(&vaa.payload, vaa.emitter_chain, &mut record, sender)
    } else if code == OP_WITHDRAW {
        process_withdraw(&vaa.payload, vaa.emitter_chain, &mut record, sender)
    } else if code == OP_INSTANT_TRANSFER {
        process_instant_transfer(&vaa.payload, vaa.emitter_chain, &mut record, sender)
    } else if code == OP_STREAM_UPDATE {
        process_update_stream(&vaa.payload, vaa.emitter_chain, &mut record, sender)
    } else if code == OP_CANCEL_STREAM {
        process_cancel_stream(&vaa.payload, vaa.emitter_chain, &mut record, sender)
    } else if code == OP_DIRECT_TRANSFER {
        process_direct_transfer(&vaa.payload, vaa.emitter_chain, &mut record, sender)
    } else {
        Err(MessengerError::InvalidPayload)
    };
    dispatched?;
    txn_count.count = new_count;
    processed_vaa.transaction_count = new_count;
    *data_storage = record;
    Ok(())
}

/// Outcome of bootstrapping a sender's derived account from an attested
/// bootstrap message.
pub open spec fn spec_initialize_pda_outcome(
    m: MessageData,
    account: Seq<u8>,
    e: EmitterAddrAccount,
    core_bridge: Seq<u8>,
    pda_account: Seq<u8>,
    program_id: Seq<u8>,
) -> Result<(), MessengerError> {
    let p = m.payload@;
    if spec_authenticate(m, account, e, core_bridge) is Err {
        spec_authenticate(m, account, e, core_bridge)
    } else if p.len() < 1 {
        Err(MessengerError::InvalidPayload)
    } else if p[0] != OP_INIT_PDA {
        Err(MessengerError::InvalidPayload)
    } else if p.len() < 65 {
        Err(MessengerError::InvalidPayload)
    } else {
        match spec_find_program_address(
            seq![p.subrange(1, 33), spec_u16_to_be_bytes(m.emitter_chain)],
            program_id,
        ) {
            None => Err(MessengerError::InvalidPDAAccount),
            Some(d) => {
                if d.0 != pda_account {
                    Err(MessengerError::InvalidPDAAccount)
                } else if !spec_be256_is_one(p.subrange(33, 65)) {
                    Err(MessengerError::InvalidToChainId)
                } else {
                    Ok(())
                }
            },
        }
    }
}

/// Bootstrap a sender's derived account: authenticate the bootstrap
/// message, re-derive the account from the embedded sender identity and the
/// origin chain, and check the embedded target chain id. The rent transfer
/// that funds the account is the caller's to perform.
pub fn initialize_pda(
    vaa: &MessageData,
    vaa_account: &[u8; 32],
    emitter: &EmitterAddrAccount,
    core_bridge: &[u8; 32],
    pda_account: &[u8; 32],
    program_id: &[u8; 32],
) -> (r: Result<(), MessengerError>)
    requires
        spec_is_hex(encode_utf8(emitter.emitter_addr@)),
    ensures
        r == spec_initialize_pda_outcome(
            *vaa,
            vaa_account@,
            *emitter,
            core_bridge@,
            pda_account@,
            program_id@,
        ),
{
    authenticate(vaa, vaa_account, emitter, core_bridge)?;
    if vaa.payload.len() < 1 {
        return Err(MessengerError::InvalidPayload);
    }
    if vaa.payload[0] != OP_INIT_PDA {
        return Err(MessengerError::InvalidPayload);
    }
    if vaa.payload.len() < 65 {
        return Err(MessengerError::InvalidPayload);
    }
    let sender_bytes = read_bytes32(&vaa.payload, 1);
    let mut seeds: Vec<Vec<u8>> = Vec::new();
    seeds.push(slice_to_vec(sender_bytes.as_slice()));
    seeds.push(u16_to_be_bytes_vec(vaa.emitter_chain));
    proof {
        assert(seeds.deep_view() =~~= seq![
            vaa.payload@.subrange(1, 33),
            spec_u16_to_be_bytes(vaa.emitter_chain),
        ]);
    }
    match find_program_address(&seeds, program_id) {
        None => Err(MessengerError::InvalidPDAAccount),
        Some((account_pda, _bump)) => {
            if !addr_eq(&account_pda, pda_account) {
                return Err(MessengerError::InvalidPDAAccount);
            }
            if !be256_is_one(&vaa.payload, 33) {
                return Err(MessengerError::InvalidToChainId);
            }
            Ok(())
        },
    }
}

/// Outcome of bootstrapping a sender's derived token account.
pub open spec fn spec_initialize_pda_token_account_outcome(
    m: MessageData,
    account: Seq<u8>,
    e: EmitterAddrAccount,
    core_bridge: Seq<u8>,
    pda_account: Seq<u8>,
    token_mint: Seq<u8>,
    program_id: Seq<u8>,
) -> Result<(), MessengerError> {
    let p = m.payload@;
    if spec_authenticate(m, account, e, core_bridge) is Err {
        spec_authenticate(m, account, e, core_bridge)
    } else if p.len() < 1 {
        Err(MessengerError::InvalidPayload)
    } else if p[0] != OP_INIT_PDA_TOKEN {
        Err(MessengerError::InvalidPayload)
    } else if p.len() < 97 {
        Err(MessengerError::InvalidPayload)
    } else if !spec_be256_is_one(p.subrange(65, 97)) {
        Err(MessengerError::InvalidToChainId)
    } else {
        match spec_find_program_address(
            seq![p.subrange(1, 33), spec_u16_to_be_bytes(m.emitter_chain)],
            program_id,
        ) {
            None => Err(MessengerError::InvalidPDAAccount),
            Some(d) => {
                if d.0 != pda_account {
                    Err(MessengerError::InvalidPDAAccount)
                } else if pfield_bytes32(p, 33) != token_mint {
                    Err(MessengerError::MintKeyMismatch)
                } else {
                    Ok(())
                }
            },
        }
    }
}

/// Bootstrap a sender's derived token account: authenticate the bootstrap
/// message, check the embedded target chain id, re-derive the account, and
/// check the embedded token mint.
pub fn initialize_pda_token_account(
    vaa: &MessageData,
    vaa_account: &[u8; 32],
    emitter: &EmitterAddrAccount,
    core_bridge: &[u8; 32],
    pda_account: &[u8; 32],
    token_mint: &[u8; 32],
    program_id: &[u8; 32],
) -> (r: Result<(), MessengerError>)
    requires
        spec_is_hex(encode_utf8(emitter.emitter_addr@)),
    ensures
        r == spec_initialize_pda_token_account_outcome(
            *vaa,
            vaa_account@,
            *emitter,
            core_bridge@,
            pda_account@,
            token_mint@,
            program_id@,
        ),
{
    authenticate(vaa, vaa_account, emitter, core_bridge)?;
    if vaa.payload.len() < 1 {
        return Err(MessengerError::InvalidPayload);
    }
    if vaa.payload[0] != OP_INIT_PDA_TOKEN {
        return Err(MessengerError::InvalidPayload);
    }
    if vaa.payload.len() < 97 {
        return Err(MessengerError::InvalidPayload);
    }
    if !be256_is_one(&vaa.payload, 65) {
        return Err(MessengerError::InvalidToChainId);
    }
    let sender_bytes = read_bytes32(&vaa.payload, 1);
    let mut seeds: Vec<Vec<u8>> = Vec::new();
    seeds.push(slice_to_vec(sender_bytes.as_slice()));
    seeds.push(u16_to_be_bytes_vec(vaa.emitter_chain));
    proof {
        assert(seeds.deep_view() =~~= seq![
            vaa.payload@.subrange(1, 33),
            spec_u16_to_be_bytes(vaa.emitter_chain),
        ]);
    }
    match find_program_address(&seeds, program_id) {
        None => Err(MessengerError::InvalidPDAAccount),
        Some((account_pda, _bump)) => {
            if !addr_eq(&account_pda, pda_account) {
                return Err(MessengerError::InvalidPDAAccount);
            }
            let embedded_mint = read_bytes32(&vaa.payload, 33);
            if !addr_eq(&embedded_mint, token_mint) {
                return Err(MessengerError::MintKeyMismatch);
            }
            Ok(())
        },
    }
}

} // verus!
