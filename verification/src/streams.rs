//! Single-shot stream operations driven directly by an attested message.
//!
//! Each handler authenticates the message, advances the sender's sequence
//! counter, decodes the payload into the transaction record, cross-validates
//! the supplied accounts against the decoded intent, and hands back the
//! arguments and signing seeds of the downstream streaming-engine call. On
//! any rejection every record is left untouched.
use vstd::prelude::*;
use vstd::utf8::encode_utf8;

use crate::bytes::{addr_eq, spec_u16_to_be_bytes};
use crate::errors::MessengerError;
use crate::ext::spec_is_hex;
use crate::payload::{
    pfield_bytes32, pfield_u64, OP_DEPOSIT, OP_STREAM_CREATE, OP_WITHDRAW_STREAM,
};
use crate::pending::{
    decode_stream_args, decode_token_amount, pda_matches, spec_decode_stream_args,
    spec_decode_token_amount, spec_pda_matches,
};
use crate::record::{
    process_deposit, process_stream, process_withdraw_stream, spec_deposit_record,
    spec_process_deposit, spec_process_stream, spec_process_withdraw_stream, spec_stream_record,
    spec_withdraw_stream_record,
};
use crate::state::{Count, EmitterAddrAccount, ProcessedVAA, Stream, TransactionData};
use crate::vaa::{
    authenticate, derive_signer_seeds, spec_authenticate, spec_identity_pda_u16, MessageData,
    SignerSeeds,
};

verus! {

/// Outcome of the stages every stream operation shares: authentication,
/// then a non-empty payload, then the sequence counter.
pub open spec fn spec_inbound_prefix(
    m: MessageData,
    account: Seq<u8>,
    e: EmitterAddrAccount,
    core_bridge: Seq<u8>,
    old_count: u64,
    current_count: u64,
) -> Result<(), MessengerError> {
    if spec_authenticate(m, account, e, core_bridge) is Err {
        spec_authenticate(m, account, e, core_bridge)
    } else if m.payload@.len() < 1 {
        Err(MessengerError::InvalidPayload)
    } else if old_count == u64::MAX {
        Err(MessengerError::Overflow)
    } else if old_count + 1 != current_count {
        Err(MessengerError::InvalidCount)
    } else {
        Ok(())
    }
}

/// Run the shared stages of a stream operation without touching any
/// record; a granted run returns the new counter value.
fn inbound_prefix(
    vaa: &MessageData,
    vaa_account: &[u8; 32],
    emitter: &EmitterAddrAccount,
    core_bridge: &[u8; 32],
    txn_count: &Count,
    current_count: u64,
) -> (r: Result<u64, MessengerError>)
    requires
        spec_is_hex(encode_utf8(emitter.emitter_addr@)),
    ensures
        r is Ok <==> spec_inbound_prefix(
            *vaa,
            vaa_account@,
            *emitter,
            core_bridge@,
            txn_count.count,
            current_count,
        ) is Ok,
        r matches Err(e) ==> Err::<(), MessengerError>(e) == spec_inbound_prefix(
            *vaa,
            vaa_account@,
            *emitter,
            core_bridge@,
            txn_count.count,
            current_count,
        ),
        r matches Ok(v) ==> v == txn_count.count + 1 && v == current_count,
{
    authenticate(vaa, vaa_account, emitter, core_bridge)?;
    if vaa.payload.len() < 1 {
        return Err(MessengerError::InvalidPayload);
    }
    let new_count = match txn_count.count.checked_add(1) {
        None => {
            return Err(MessengerError::Overflow);
        },
        Some(val) => val,
    };
    if new_count != current_count {
        return Err(MessengerError::InvalidCount);
    }
    Ok(new_count)
}

/// Outcome of a stream-create operation: the shared stages, the opcode, the
/// payload decode, the supplied accounts against the decoded intent, the
/// instruction-data arguments against the decoded fields, and the signing
/// authority, in that order.
pub open spec fn spec_stream_start_outcome(
    m: MessageData,
    account: Seq<u8>,
    e: EmitterAddrAccount,
    core_bridge: Seq<u8>,
    old_count: u64,
    current_count: u64,
    sender: Seq<u8>,
    mint: Seq<u8>,
    source_account: Seq<u8>,
    dest_account: Seq<u8>,
    data: Seq<u8>,
    from_chain_id: u16,
    program_id: Seq<u8>,
) -> Result<(), MessengerError> {
    let p = m.payload@;
    let prefix = spec_inbound_prefix(m, account, e, core_bridge, old_count, current_count);
    if prefix is Err {
        prefix
    } else if p[0] != OP_STREAM_CREATE {
        Err(MessengerError::InvalidPayload)
    } else if spec_process_stream(p, sender) is Err {
        spec_process_stream(p, sender)
    } else if mint != pfield_bytes32(p, 137) {
        Err(MessengerError::MintKeyMismatch)
    } else if !spec_pda_matches(sender, m.emitter_chain as u64, program_id, source_account) {
        Err(MessengerError::SenderDerivedKeyMismatch)
    } else if !spec_pda_matches(
        pfield_bytes32(p, 89),
        m.emitter_chain as u64,
        program_id,
        dest_account,
    ) {
        Err(MessengerError::ReceiverDerivedKeyMismatch)
    } else if spec_decode_stream_args(data) is Err {
        Err(MessengerError::InvalidDataProvided)
    } else {
        let args = spec_decode_stream_args(data).unwrap();
        if args.amount != pfield_u64(p, 17) {
            Err(MessengerError::AmountMismatch)
        } else if args.start_time != pfield_u64(p, 1) {
            Err(MessengerError::StartTimeMismatch)
        } else if args.end_time != pfield_u64(p, 9) {
            Err(MessengerError::EndTimeMismatch)
        } else if args.can_cancel != (pfield_u64(p, 129) == 1) {
            Err(MessengerError::CanCancelMismatch)
        } else if args.can_update != (pfield_u64(p, 121) == 1) {
            Err(MessengerError::CanUpdateMismatch)
        } else if spec_identity_pda_u16(sender, from_chain_id, program_id) is None {
            Err(MessengerError::InvalidCPI)
        } else {
            Ok(())
        }
    }
}

/// Start a token stream from an attested stream-create message: store the
/// decoded intent, cross-validate the supplied accounts and arguments, and
/// hand back the streaming-engine call arguments with the signing seeds.
pub fn stream_start(
    vaa: &MessageData,
    vaa_account: &[u8; 32],
    emitter: &EmitterAddrAccount,
    core_bridge: &[u8; 32],
    txn_count: &mut Count,
    processed_vaa: &mut ProcessedVAA,
    data_storage: &mut TransactionData,
    sender: &[u8; 32],
    from_chain_id: u16,
    current_count: u64,
    data: &Vec<u8>,
    mint: &[u8; 32],
    source_account: &[u8; 32],
    dest_account: &[u8; 32],
    program_id: &[u8; 32],
) -> (r: Result<(Stream, SignerSeeds), MessengerError>)
    requires
        spec_is_hex(encode_utf8(emitter.emitter_addr@)),
    ensures
        r is Ok <==> spec_stream_start_outcome(
            *vaa,
            vaa_account@,
            *emitter,
            core_bridge@,
            old(txn_count).count,
            current_count,
            sender@,
            mint@,
            source_account@,
            dest_account@,
            data@,
            from_chain_id,
            program_id@,
        ) is Ok,
        r matches Err(e) ==> Err::<(), MessengerError>(e) == spec_stream_start_outcome(
            *vaa,
            vaa_account@,
            *emitter,
            core_bridge@,
            old(txn_count).count,
            current_count,
            sender@,
            mint@,
            source_account@,
            dest_account@,
            data@,
            from_chain_id,
            program_id@,
        ),
        r is Err ==> {
            &&& *final(txn_count) == *old(txn_count)
            &&& *final(processed_vaa) == *old(processed_vaa)
            &&& *final(data_storage) == *old(data_storage)
        },
        r is Ok ==> {
            &&& final(txn_count).count == current_count
            &&& final(processed_vaa).transaction_count == current_count
            &&& spec_stream_record(
                vaa.payload@,
                vaa.emitter_chain,
                *old(data_storage),
                *final(data_storage),
            )
        },
        r matches Ok(v) ==> {
            let p = spec_identity_pda_u16(sender@, from_chain_id, program_id@).unwrap();
            &&& Ok::<Stream, MessengerError>(v.0) == spec_decode_stream_args(data@)
            &&& v.1.signer@ == p.0
            &&& v.1.bump == p.1
            &&& v.1.seeds.deep_view() == seq![
                sender@,
                spec_u16_to_be_bytes(from_chain_id),
                seq![p.1],
            ]
        },
{
    let new_count = inbound_prefix(vaa, vaa_account, emitter, core_bridge, txn_count,
        current_count)?;
    if vaa.payload[0] != OP_STREAM_CREATE {
        return Err(MessengerError::InvalidPayload);
    }
    let mut record = *data_storage;
    process_stream(&vaa.payload, vaa.emitter_chain, &mut record, sender)?;
    if !addr_eq(mint, &record.token_mint) {
        return Err(MessengerError::MintKeyMismatch);
    }
    if !pda_matches(sender, record.from_chain_id, program_id, source_account) {
        return Err(MessengerError::SenderDerivedKeyMismatch);
    }
    if !pda_matches(&record.receiver, record.from_chain_id, program_id, dest_account) {
        return Err(MessengerError::ReceiverDerivedKeyMismatch);
    }
    let args = match decode_stream_args(data) {
        Err(_) => {
            return Err(MessengerError::InvalidDataProvided);
        },
        Ok(a) => a,
    };
    if args.amount != record.amount {
        return Err(MessengerError::AmountMismatch);
    }
    if args.start_time != record.start_time {
        return Err(MessengerError::StartTimeMismatch);
    }
    if args.end_time != record.end_time {
        return Err(MessengerError::EndTimeMismatch);
    }
    if args.can_cancel != record.can_cancel {
        return Err(MessengerError::CanCancelMismatch);
    }
    if args.can_update != record.can_update {
        return Err(MessengerError::CanUpdateMismatch);
    }
    let seeds = match derive_signer_seeds(sender, from_chain_id, program_id) {
        None => {
            return Err(MessengerError::InvalidCPI);
        },
        Some(ss) => ss,
    };
    txn_count.count = new_count;
    processed_vaa.transaction_count = new_count;
    *data_storage = record;
    Ok((args, seeds))
}

/// Outcome of a deposit operation.
pub open spec fn spec_deposit_outcome(
    m: MessageData,
    account: Seq<u8>,
    e: EmitterAddrAccount,
    core_bridge: Seq<u8>,
    old_count: u64,
    current_count: u64,
    sender: Seq<u8>,
    mint: Seq<u8>,
    source_account: Seq<u8>,
    data: Seq<u8>,
    from_chain_id: u16,
    program_id: Seq<u8>,
) -> Result<(), MessengerError> {
    let p = m.payload@;
    let prefix = spec_inbound_prefix(m, account, e, core_bridge, old_count, current_count);
    if prefix is Err {
        prefix
    } else if p[0] != OP_DEPOSIT {
        Err(MessengerError::InvalidPayload)
    } else if spec_process_deposit(p, sender) is Err {
        spec_process_deposit(p, sender)
    } else if mint != pfield_bytes32(p, 73) {
        Err(MessengerError::MintKeyMismatch)
    } else if !spec_pda_matches(sender, m.emitter_chain as u64, program_id, source_account) {
        Err(MessengerError::SenderDerivedKeyMismatch)
    } else if spec_decode_token_amount(data) is Err {
        Err(MessengerError::InvalidDataProvided)
    } else if spec_decode_token_amount(data) != Ok::<u64, MessengerError>(pfield_u64(p, 1)) {
        Err(MessengerError::AmountMismatch)
    } else if spec_identity_pda_u16(sender, from_chain_id, program_id) is None {
        Err(MessengerError::InvalidCPI)
    } else {
        Ok(())
    }
}

/// Deposit tokens from an attested deposit message: store the decoded
/// intent, cross-validate the supplied accounts and amount, and hand back
/// the amount with the signing seeds.
pub fn deposit(
    vaa: &MessageData,
    vaa_account: &[u8; 32],
    emitter: &EmitterAddrAccount,
    core_bridge: &[u8; 32],
    txn_count: &mut Count,
    processed_vaa: &mut ProcessedVAA,
    data_storage: &mut TransactionData,
    sender: &[u8; 32],
    from_chain_id: u16,
    current_count: u64,
    data: &Vec<u8>,
    mint: &[u8; 32],
    source_account: &[u8; 32],
    program_id: &[u8; 32],
) -> (r: Result<(u64, SignerSeeds), MessengerError>)
    requires
        spec_is_hex(encode_utf8(emitter.emitter_addr@)),
    ensures
        r is Ok <==> spec_deposit_outcome(
            *vaa,
            vaa_account@,
            *emitter,
            core_bridge@,
            old(txn_count).count,
            current_count,
            sender@,
            mint@,
            source_account@,
            data@,
            from_chain_id,
            program_id@,
        ) is Ok,
        r matches Err(e) ==> Err::<(), MessengerError>(e) == spec_deposit_outcome(
            *vaa,
            vaa_account@,
            *emitter,
            core_bridge@,
            old(txn_count).count,
            current_count,
            sender@,
            mint@,
            source_account@,
            data@,
            from_chain_id,
            program_id@,
        ),
        r is Err ==> {
            &&& *final(txn_count) == *old(txn_count)
            &&& *final(processed_vaa) == *old(processed_vaa)
            &&& *final(data_storage) == *old(data_storage)
        },
        r is Ok ==> {
            &&& final(txn_count).count == current_count
            &&& final(processed_vaa).transaction_count == current_count
            &&& spec_deposit_record(
                vaa.payload@,
                vaa.emitter_chain,
                *old(data_storage),
                *final(data_storage),
            )
        },
        r matches Ok(v) ==> {
            let p = spec_identity_pda_u16(sender@, from_chain_id, program_id@).unwrap();
            &&& v.0 == pfield_u64(vaa.payload@, 1)
            &&& v.1.signer@ == p.0
            &&& v.1.bump == p.1
            &&& v.1.seeds.deep_view() == seq![
                sender@,
                spec_u16_to_be_bytes(from_chain_id),
                seq![p.1],
            ]
        },
{
    let new_count = inbound_prefix(vaa, vaa_account, emitter, core_bridge, txn_count,
        current_count)?;
    if vaa.payload[0] != OP_DEPOSIT {
        return Err(MessengerError::InvalidPayload);
    }
    let mut record = *data_storage;
    process_deposit(&vaa.payload, vaa.emitter_chain, &mut record, sender)?;
    if !addr_eq(mint, &record.token_mint) {
        return Err(MessengerError::MintKeyMismatch);
    }
    if !pda_matches(sender, record.from_chain_id, program_id, source_account) {
        return Err(MessengerError::SenderDerivedKeyMismatch);
    }
    let decode_data = match decode_token_amount(data) {
        Err(_) => {
            return Err(MessengerError::InvalidDataProvided);
        },
        Ok(t) => t,
    };
    if decode_data.amount != record.amount {
        return Err(MessengerError::AmountMismatch);
    }
    let seeds = match derive_signer_seeds(sender, from_chain_id, program_id) {
        None => {
            return Err(MessengerError::InvalidCPI);
        },
        Some(ss) => ss,
    };
    txn_count.count = new_count;
    processed_vaa.transaction_count = new_count;
    *data_storage = record;
    Ok((decode_data.amount, seeds))
}

/// Outcome of a sender-side withdrawal of deposited tokens.
pub open spec fn spec_sender_withdraw_outcome(
    m: MessageData,
    account: Seq<u8>,
    e: EmitterAddrAccount,
    core_bridge: Seq<u8>,
    old_count: u64,
    current_count: u64,
    sender: Seq<u8>,
    mint: Seq<u8>,
    source_account: Seq<u8>,
    data: Seq<u8>,
    from_chain_id: u16,
    program_id: Seq<u8>,
) -> Result<(), MessengerError> {
    let p = m.payload@;
    let prefix = spec_inbound_prefix(m, account, e, core_bridge, old_count, current_count);
    if prefix is Err {
        prefix
    } else if p[0] != OP_DEPOSIT {
        Err(MessengerError::InvalidPayload)
    } else if spec_process_deposit(p, sender) is Err {
        spec_process_deposit(p, sender)
    } else if mint != pfield_bytes32(p, 73) {
        Err(MessengerError::MintKeyMismatch)
    } else if !spec_pda_matches(sender, m.emitter_chain as u64, program_id, source_account) {
        Err(MessengerError::SenderDerivedKeyMismatch)
    } else if spec_decode_token_amount(data) is Err {
        Err(MessengerError::InvalidDataProvided)
    } else if spec_decode_token_amount(data) != Ok::<u64, MessengerError>(pfield_u64(p, 1)) {
        Err(MessengerError::AmountMismatch)
    } else if spec_identity_pda_u16(sender, from_chain_id, program_id) is None {
        Err(MessengerError::InvalidCPI)
    } else {
        Ok(())
    }
}

/// Withdraw previously deposited tokens back to the sender, driven by an
/// attested deposit-shaped message.
pub fn sender_withdraw(
    vaa: &MessageData,
    vaa_account: &[u8; 32],
    emitter: &EmitterAddrAccount,
    core_bridge: &[u8; 32],
    txn_count: &mut Count,
    processed_vaa: &mut ProcessedVAA,
    data_storage: &mut TransactionData,
    sender: &[u8; 32],
    from_chain_id: u16,
    current_count: u64,
    data: &Vec<u8>,
    mint: &[u8; 32],
    source_account: &[u8; 32],
    program_id: &[u8; 32],
) -> (r: Result<(u64, SignerSeeds), MessengerError>)
    requires
        spec_is_hex(encode_utf8(emitter.emitter_addr@)),
    ensures
        r is Ok <==> spec_sender_withdraw_outcome(
            *vaa,
            vaa_account@,
            *emitter,
            core_bridge@,
            old(txn_count).count,
            current_count,
            sender@,
            mint@,
            source_account@,
            data@,
            from_chain_id,
            program_id@,
        ) is Ok,
        r matches Err(e) ==> Err::<(), MessengerError>(e) == spec_sender_withdraw_outcome(
            *vaa,
            vaa_account@,
            *emitter,
            core_bridge@,
            old(txn_count).count,
            current_count,
            sender@,
            mint@,
            source_account@,
            data@,
            from_chain_id,
            program_id@,
        ),
        r is Err ==> {
            &&& *final(txn_count) == *old(txn_count)
            &&& *final(processed_vaa) == *old(processed_vaa)
            &&& *final(data_storage) == *old(data_storage)
        },
        r is Ok ==> {
            &&& final(txn_count).count == current_count
            &&& final(processed_vaa).transaction_count == current_count
            &&& spec_deposit_record(
                vaa.payload@,
                vaa.emitter_chain,
                *old(data_storage),
                *final(data_storage),
            )
        },
        r matches Ok(v) ==> {
            let p = spec_identity_pda_u16(sender@, from_chain_id, program_id@).unwrap();
            &&& v.0 == pfield_u64(vaa.payload@, 1)
            &&& v.1.signer@ == p.0
            &&& v.1.bump == p.1
            &&& v.1.seeds.deep_view() == seq![
                sender@,
                spec_u16_to_be_bytes(from_chain_id),
                seq![p.1],
            ]
        },
{
    let new_count = inbound_prefix(vaa, vaa_account, emitter, core_bridge, txn_count,
        current_count)?;
    if vaa.payload[0] != OP_DEPOSIT {
        return Err(MessengerError::InvalidPayload);
    }
    let mut record = *data_storage;
    process_deposit(&vaa.payload, vaa.emitter_chain, &mut record, sender)?;
    if !addr_eq(mint, &record.token_mint) {
        return Err(MessengerError::MintKeyMismatch);
    }
    if !pda_matches(sender, record.from_chain_id, program_id, source_account) {
        return Err(MessengerError::SenderDerivedKeyMismatch);
    }
    let decode_data = match decode_token_amount(data) {
        Err(_) => {
            return Err(MessengerError::InvalidDataProvided);
        },
        Ok(t) => t,
    };
    if decode_data.amount != record.amount {
        return Err(MessengerError::AmountMismatch);
    }
    let seeds = match derive_signer_seeds(sender, from_chain_id, program_id) {
        None => {
            return Err(MessengerError::InvalidCPI);
        },
        Some(ss) => ss,
    };
    txn_count.count = new_count;
    processed_vaa.transaction_count = new_count;
    *data_storage = record;
    Ok((decode_data.amount, seeds))
}

/// Outcome of a receiver-side stream withdrawal.
pub open spec fn spec_stream_withdraw_outcome(
    m: MessageData,
    account: Seq<u8>,
    e: EmitterAddrAccount,
    core_bridge: Seq<u8>,
    old_count: u64,
    current_count: u64,
    sender: Seq<u8>,
    mint: Seq<u8>,
    data_account: Seq<u8>,
    source_account: Seq<u8>,
    pda_signer: Seq<u8>,
    from_chain_id: u16,
    program_id: Seq<u8>,
) -> Result<(), MessengerError> {
    let p = m.payload@;
    let prefix = spec_inbound_prefix(m, account, e, core_bridge, old_count, current_count);
    if prefix is Err {
        prefix
    } else if p[0] != OP_WITHDRAW_STREAM {
        Err(MessengerError::InvalidPayload)
    } else if spec_process_withdraw_stream(p, sender) is Err {
        spec_process_withdraw_stream(p, sender)
    } else if mint != pfield_bytes32(p, 65) {
        Err(MessengerError::MintKeyMismatch)
    } else if data_account != pfield_bytes32(p, 129) {
        Err(MessengerError::DataAccountMismatch)
    } else if !spec_pda_matches(
        pfield_bytes32(p, 97),
        m.emitter_chain as u64,
        program_id,
        source_account,
    ) {
        Err(MessengerError::SenderDerivedKeyMismatch)
    } else if !spec_pda_matches(
        pfield_bytes32(p, 33),
        m.emitter_chain as u64,
        program_id,
        pda_signer,
    ) {
        Err(MessengerError::ReceiverDerivedKeyMismatch)
    } else if spec_identity_pda_u16(sender, from_chain_id, program_id) is None {
        Err(MessengerError::InvalidCPI)
    } else {
        Ok(())
    }
}

/// Withdraw streamed tokens to the receiver, driven by an attested
/// stream-withdraw message. The supplied identity is the withdrawing
/// receiver.
pub fn stream_withdraw(
    vaa: &MessageData,
    vaa_account: &[u8; 32],
    emitter: &EmitterAddrAccount,
    core_bridge: &[u8; 32],
    txn_count: &mut Count,
    processed_vaa: &mut ProcessedVAA,
    data_storage: &mut TransactionData,
    sender: &[u8; 32],
    from_chain_id: u16,
    current_count: u64,
    mint: &[u8; 32],
    data_account: &[u8; 32],
    source_account: &[u8; 32],
    pda_signer: &[u8; 32],
    program_id: &[u8; 32],
) -> (r: Result<SignerSeeds, MessengerError>)
    requires
        spec_is_hex(encode_utf8(emitter.emitter_addr@)),
    ensures
        r is Ok <==> spec_stream_withdraw_outcome(
            *vaa,
            vaa_account@,
            *emitter,
            core_bridge@,
            old(txn_count).count,
            current_count,
            sender@,
            mint@,
            data_account@,
            source_account@,
            pda_signer@,
            from_chain_id,
            program_id@,
        ) is Ok,
        r matches Err(e) ==> Err::<(), MessengerError>(e) == spec_stream_withdraw_outcome(
            *vaa,
            vaa_account@,
            *emitter,
            core_bridge@,
            old(txn_count).count,
            current_count,
            sender@,
            mint@,
            data_account@,
            source_account@,
            pda_signer@,
            from_chain_id,
            program_id@,
        ),
        r is Err ==> {
            &&& *final(txn_count) == *old(txn_count)
            &&& *final(processed_vaa) == *old(processed_vaa)
            &&& *final(data_storage) == *old(data_storage)
        },
        r is Ok ==> {
            &&& final(txn_count).count == current_count
            &&& final(processed_vaa).transaction_count == current_count
            &&& spec_withdraw_stream_record(
                vaa.payload@,
                vaa.emitter_chain,
                *old(data_storage),
                *final(data_storage),
            )
        },
        r matches Ok(ss) ==> {
            let p = spec_identity_pda_u16(sender@, from_chain_id, program_id@).unwrap();
            &&& ss.signer@ == p.0
            &&& ss.bump == p.1
            &&& ss.seeds.deep_view() == seq![
                sender@,
                spec_u16_to_be_bytes(from_chain_id),
                seq![p.1],
            ]
        },
{
    let new_count = inbound_prefix(vaa, vaa_account, emitter, core_bridge, txn_count,
        current_count)?;
    if vaa.payload[0] != OP_WITHDRAW_STREAM {
        return Err(MessengerError::InvalidPayload);
    }
    let mut record = *data_storage;
    process_withdraw_stream(&vaa.payload, vaa.emitter_chain, &mut record, sender)?;
    if !addr_eq(mint, &record.token_mint) {
        return Err(MessengerError::MintKeyMismatch);
    }
    if !addr_eq(data_account, &record.data_account) {
        return Err(MessengerError::DataAccountMismatch);
    }
    if !pda_matches(&record.sender, record.from_chain_id, program_id, source_account) {
        return Err(MessengerError::SenderDerivedKeyMismatch);
    }
    if !pda_matches(&record.receiver, record.from_chain_id, program_id, pda_signer) {
        return Err(MessengerError::ReceiverDerivedKeyMismatch);
    }
    let seeds = match derive_signer_seeds(sender, from_chain_id, program_id) {
        None => {
            return Err(MessengerError::InvalidCPI);
        },
        Some(ss) => ss,
    };
    txn_count.count = new_count;
    processed_vaa.transaction_count = new_count;
    *data_storage = record;
    Ok(seeds)
}

/// Outcome of a pause/resume operation.
pub open spec fn spec_stream_pause_outcome(
    m: MessageData,
    account: Seq<u8>,
    e: EmitterAddrAccount,
    core_bridge: Seq<u8>,
    old_count: u64,
    current_count: u64,
    sender: Seq<u8>,
    data_account: Seq<u8>,
    source_account: Seq<u8>,
    dest_account: Seq<u8>,
    from_chain_id: u16,
    program_id: Seq<u8>,
) -> Result<(), MessengerError> {
    let p = m.payload@;
    let prefix = spec_inbound_prefix(m, account, e, core_bridge, old_count, current_count);
    if prefix is Err {
        prefix
    } else if p[0] != OP_WITHDRAW_STREAM {
        Err(MessengerError::InvalidPayload)
    } else if spec_process_withdraw_stream(p, sender) is Err {
        spec_process_withdraw_stream(p, sender)
    } else if data_account != pfield_bytes32(p, 129) {
        Err(MessengerError::DataAccountMismatch)
    } else if sender != pfield_bytes32(p, 97) {
        Err(MessengerError::PdaSenderMismatch)
    } else if !spec_pda_matches(sender, m.emitter_chain as u64, program_id, source_account) {
        Err(MessengerError::SenderDerivedKeyMismatch)
    } else if !spec_pda_matches(
        pfield_bytes32(p, 33),
        m.emitter_chain as u64,
        program_id,
        dest_account,
    ) {
        Err(MessengerError::ReceiverDerivedKeyMismatch)
    } else if spec_identity_pda_u16(sender, from_chain_id, program_id) is None {
        Err(MessengerError::InvalidCPI)
    } else {
        Ok(())
    }
}

/// Pause or resume a token stream, driven by an attested stream-withdraw
/// shaped message.
pub fn stream_pause(
    vaa: &MessageData,
    vaa_account: &[u8; 32],
    emitter: &EmitterAddrAccount,
    core_bridge: &[u8; 32],
    txn_count: &mut Count,
    processed_vaa: &mut ProcessedVAA,
    data_storage: &mut TransactionData,
    sender: &[u8; 32],
    from_chain_id: u16,
    current_count: u64,
    data_account: &[u8; 32],
    source_account: &[u8; 32],
    dest_account: &[u8; 32],
    program_id: &[u8; 32],
) -> (r: Result<SignerSeeds, MessengerError>)
    requires
        spec_is_hex(encode_utf8(emitter.emitter_addr@)),
    ensures
        r is Ok <==> spec_stream_pause_outcome(
            *vaa,
            vaa_account@,
            *emitter,
            core_bridge@,
            old(txn_count).count,
            current_count,
            sender@,
            data_account@,
            source_account@,
            dest_account@,
            from_chain_id,
            program_id@,
        ) is Ok,
        r matches Err(e) ==> Err::<(), MessengerError>(e) == spec_stream_pause_outcome(
            *vaa,
            vaa_account@,
            *emitter,
            core_bridge@,
            old(txn_count).count,
            current_count,
            sender@,
            data_account@,
            source_account@,
            dest_account@,
            from_chain_id,
            program_id@,
        ),
        r is Err ==> {
            &&& *final(txn_count) == *old(txn_count)
            &&& *final(processed_vaa) == *old(processed_vaa)
            &&& *final(data_storage) == *old(data_storage)
        },
        r is Ok ==> {
            &&& final(txn_count).count == current_count
            &&& final(processed_vaa).transaction_count == current_count
            &&& spec_withdraw_stream_record(
                vaa.payload@,
                vaa.emitter_chain,
                *old(data_storage),
                *final(data_storage),
            )
        },
        r matches Ok(ss) ==> {
            let p = spec_identity_pda_u16(sender@, from_chain_id, program_id@).unwrap();
            &&& ss.signer@ == p.0
            &&& ss.bump == p.1
            &&& ss.seeds.deep_view() == seq![
                sender@,
                spec_u16_to_be_bytes(from_chain_id),
                seq![p.1],
            ]
        },
{
    let new_count = inbound_prefix(vaa, vaa_account, emitter, core_bridge, txn_count,
        current_count)?;
    if vaa.payload[0] != OP_WITHDRAW_STREAM {
        return Err(MessengerError::InvalidPayload);
    }
    let mut record = *data_storage;
    process_withdraw_stream(&vaa.payload, vaa.emitter_chain, &mut record, sender)?;
    if !addr_eq(data_account, &record.data_account) {
        return Err(MessengerError::DataAccountMismatch);
    }
    if !addr_eq(sender, &record.sender) {
        return Err(MessengerError::PdaSenderMismatch);
    }
    if !pda_matches(sender, record.from_chain_id, program_id, source_account) {
        return Err(MessengerError::SenderDerivedKeyMismatch);
    }
    if !pda_matches(&record.receiver, record.from_chain_id, program_id, dest_account) {
        return Err(MessengerError::ReceiverDerivedKeyMismatch);
    }
    let seeds = match derive_signer_seeds(sender, from_chain_id, program_id) {
        None => {
            return Err(MessengerError::InvalidCPI);
        },
        Some(ss) => ss,
    };
    txn_count.count = new_count;
    processed_vaa.transaction_count = new_count;
    *data_storage = record;
    Ok(seeds)
}

/// Outcome of a cancel-stream operation.
pub open spec fn spec_stream_cancel_outcome(
    m: MessageData,
    account: Seq<u8>,
    e: EmitterAddrAccount,
    core_bridge: Seq<u8>,
    old_count: u64,
    current_count: u64,
    sender: Seq<u8>,
    mint: Seq<u8>,
    data_account: Seq<u8>,
    source_account: Seq<u8>,
    dest_account: Seq<u8>,
    from_chain_id: u16,
    program_id: Seq<u8>,
) -> Result<(), MessengerError> {
    let p = m.payload@;
    let prefix = spec_inbound_prefix(m, account, e, core_bridge, old_count, current_count);
    if prefix is Err {
        prefix
    } else if p[0] != OP_WITHDRAW_STREAM {
        Err(MessengerError::InvalidPayload)
    } else if spec_process_withdraw_stream(p, sender) is Err {
        spec_process_withdraw_stream(p, sender)
    } else if mint != pfield_bytes32(p, 65) {
        Err(MessengerError::MintKeyMismatch)
    } else if data_account != pfield_bytes32(p, 129) {
        Err(MessengerError::DataAccountMismatch)
    } else if sender != pfield_bytes32(p, 97) {
        Err(MessengerError::PdaSenderMismatch)
    } else if !spec_pda_matches(sender, m.emitter_chain as u64, program_id, source_account) {
        Err(MessengerError::SenderDerivedKeyMismatch)
    } else if !spec_pda_matches(
        pfield_bytes32(p, 33),
        m.emitter_chain as u64,
        program_id,
        dest_account,
    ) {
        Err(MessengerError::ReceiverDerivedKeyMismatch)
    } else if spec_identity_pda_u16(sender, from_chain_id, program_id) is None {
        Err(MessengerError::InvalidCPI)
    } else {
        Ok(())
    }
}

/// Cancel a token stream, driven by an attested stream-withdraw shaped
/// message.
pub fn stream_cancel(
    vaa: &MessageData,
    vaa_account: &[u8; 32],
    emitter: &EmitterAddrAccount,
    core_bridge: &[u8; 32],
    txn_count: &mut Count,
    processed_vaa: &mut ProcessedVAA,
    data_storage: &mut TransactionData,
    sender: &[u8; 32],
    from_chain_id: u16,
    current_count: u64,
    mint: &[u8; 32],
    data_account: &[u8; 32],
    source_account: &[u8; 32],
    dest_account: &[u8; 32],
    program_id: &[u8; 32],
) -> (r: Result<SignerSeeds, MessengerError>)
    requires
        spec_is_hex(encode_utf8(emitter.emitter_addr@)),
    ensures
        r is Ok <==> spec_stream_cancel_outcome(
            *vaa,
            vaa_account@,
            *emitter,
            core_bridge@,
            old(txn_count).count,
            current_count,
            sender@,
            mint@,
            data_account@,
            source_account@,
            dest_account@,
            from_chain_id,
            program_id@,
        ) is Ok,
        r matches Err(e) ==> Err::<(), MessengerError>(e) == spec_stream_cancel_outcome(
            *vaa,
            vaa_account@,
            *emitter,
            core_bridge@,
            old(txn_count).count,
            current_count,
            sender@,
            mint@,
            data_account@,
            source_account@,
            dest_account@,
            from_chain_id,
            program_id@,
        ),
        r is Err ==> {
            &&& *final(txn_count) == *old(txn_count)
            &&& *final(processed_vaa) == *old(processed_vaa)
            &&& *final(data_storage) == *old(data_storage)
        },
        r is Ok ==> {
            &&& final(txn_count).count == current_count
            &&& final(processed_vaa).transaction_count == current_count
            &&& spec_withdraw_stream_record(
                vaa.payload@,
                vaa.emitter_chain,
                *old(data_storage),
                *final(data_storage),
            )
        },
        r matches Ok(ss) ==> {
            let p = spec_identity_pda_u16(sender@, from_chain_id, program_id@).unwrap();
            &&& ss.signer@ == p.0
            &&& ss.bump == p.1
            &&& ss.seeds.deep_view() == seq![
                sender@,
                spec_u16_to_be_bytes(from_chain_id),
                seq![p.1],
            ]
        },
{
    let new_count = inbound_prefix(vaa, vaa_account, emitter, core_bridge, txn_count,
        current_count)?;
    if vaa.payload[0] != OP_WITHDRAW_STREAM {
        return Err(MessengerError::InvalidPayload);
    }
    let mut record = *data_storage;
    process_withdraw_stream(&vaa.payload, vaa.emitter_chain, &mut record, sender)?;
    if !addr_eq(mint, &record.token_mint) {
        return Err(MessengerError::MintKeyMismatch);
    }
    if !addr_eq(data_account, &record.data_account) {
        return Err(MessengerError::DataAccountMismatch);
    }
    if !addr_eq(sender, &record.sender) {
        return Err(MessengerError::PdaSenderMismatch);
    }
    if !pda_matches(sender, record.from_chain_id, program_id, source_account) {
        return Err(MessengerError::SenderDerivedKeyMismatch);
    }
    if !pda_matches(&record.receiver, record.from_chain_id, program_id, dest_account) {
        return Err(MessengerError::ReceiverDerivedKeyMismatch);
    }
    let seeds = match derive_signer_seeds(sender, from_chain_id, program_id) {
        None => {
            return Err(MessengerError::InvalidCPI);
        },
        Some(ss) => ss,
    };
    txn_count.count = new_count;
    processed_vaa.transaction_count = new_count;
    *data_storage = record;
    Ok(seeds)
}

/// Outcome of an instant transfer. The claimed amount is checked against
/// the amount already stored in the record, which this operation's payload
/// does not carry.
pub open spec fn spec_instant_transfer_outcome(
    m: MessageData,
    account: Seq<u8>,
    e: EmitterAddrAccount,
    core_bridge: Seq<u8>,
    old_count: u64,
    current_count: u64,
    sender: Seq<u8>,
    mint: Seq<u8>,
    source_account: Seq<u8>,
    dest_account: Seq<u8>,
    data: Seq<u8>,
    stored_amount: u64,
    from_chain_id: u16,
    program_id: Seq<u8>,
) -> Result<(), MessengerError> {
    let p = m.payload@;
    let prefix = spec_inbound_prefix(m, account, e, core_bridge, old_count, current_count);
    if prefix is Err {
        prefix
    } else if p[0] != OP_WITHDRAW_STREAM {
        Err(MessengerError::InvalidPayload)
    } else if spec_process_withdraw_stream(p, sender) is Err {
        spec_process_withdraw_stream(p, sender)
    } else if mint != pfield_bytes32(p, 65) {
        Err(MessengerError::MintKeyMismatch)
    } else if sender != pfield_bytes32(p, 97) {
        Err(MessengerError::PdaSenderMismatch)
    } else if !spec_pda_matches(sender, m.emitter_chain as u64, program_id, source_account) {
        Err(MessengerError::SenderDerivedKeyMismatch)
    } else if !spec_pda_matches(
        pfield_bytes32(p, 33),
        m.emitter_chain as u64,
        program_id,
        dest_account,
    ) {
        Err(MessengerError::ReceiverDerivedKeyMismatch)
    } else if spec_decode_token_amount(data) is Err {
        Err(MessengerError::InvalidDataProvided)
    } else if spec_decode_token_amount(data) != Ok::<u64, MessengerError>(stored_amount) {
        Err(MessengerError::AmountMismatch)
    } else if spec_identity_pda_u16(sender, from_chain_id, program_id) is None {
        Err(MessengerError::InvalidCPI)
    } else {
        Ok(())
    }
}

/// Transfer tokens instantly, driven by an attested stream-withdraw shaped
/// message.
pub fn instant_transfer(
    vaa: &MessageData,
    vaa_account: &[u8; 32],
    emitter: &EmitterAddrAccount,
    core_bridge: &[u8; 32],
    txn_count: &mut Count,
    processed_vaa: &mut ProcessedVAA,
    data_storage: &mut TransactionData,
    sender: &[u8; 32],
    from_chain_id: u16,
    current_count: u64,
    data: &Vec<u8>,
    mint: &[u8; 32],
    source_account: &[u8; 32],
    dest_account: &[u8; 32],
    program_id: &[u8; 32],
) -> (r: Result<(u64, SignerSeeds), MessengerError>)
    requires
        spec_is_hex(encode_utf8(emitter.emitter_addr@)),
    ensures
        r is Ok <==> spec_instant_transfer_outcome(
            *vaa,
            vaa_account@,
            *emitter,
            core_bridge@,
            old(txn_count).count,
            current_count,
            sender@,
            mint@,
            source_account@,
            dest_account@,
            data@,
            old(data_storage).amount,
            from_chain_id,
            program_id@,
        ) is Ok,
        r matches Err(e) ==> Err::<(), MessengerError>(e) == spec_instant_transfer_outcome(
            *vaa,
            vaa_account@,
            *emitter,
            core_bridge@,
            old(txn_count).count,
            current_count,
            sender@,
            mint@,
            source_account@,
            dest_account@,
            data@,
            old(data_storage).amount,
            from_chain_id,
            program_id@,
        ),
        r is Err ==> {
            &&& *final(txn_count) == *old(txn_count)
            &&& *final(processed_vaa) == *old(processed_vaa)
            &&& *final(data_storage) == *old(data_storage)
        },
        r is Ok ==> {
            &&& final(txn_count).count == current_count
            &&& final(processed_vaa).transaction_count == current_count
            &&& spec_withdraw_stream_record(
                vaa.payload@,
                vaa.emitter_chain,
                *old(data_storage),
                *final(data_storage),
            )
        },
        r matches Ok(v) ==> {
            let p = spec_identity_pda_u16(sender@, from_chain_id, program_id@).unwrap();
            &&& v.0 == old(data_storage).amount
            &&& v.1.signer@ == p.0
            &&& v.1.bump == p.1
            &&& v.1.seeds.deep_view() == seq![
                sender@,
                spec_u16_to_be_bytes(from_chain_id),
                seq![p.1],
            ]
        },
{
    let new_count = inbound_prefix(vaa, vaa_account, emitter, core_bridge, txn_count,
        current_count)?;
    if vaa.payload[0] != OP_WITHDRAW_STREAM {
        return Err(MessengerError::InvalidPayload);
    }
    let mut record = *data_storage;
    process_withdraw_stream(&vaa.payload, vaa.emitter_chain, &mut record, sender)?;
    if !addr_eq(mint, &record.token_mint) {
        return Err(MessengerError::MintKeyMismatch);
    }
    if !addr_eq(sender, &record.sender) {
        return Err(MessengerError::PdaSenderMismatch);
    }
    if !pda_matches(sender, record.from_chain_id, program_id, source_account) {
        return Err(MessengerError::SenderDerivedKeyMismatch);
    }
    if !pda_matches(&record.receiver, record.from_chain_id, program_id, dest_account) {
        return Err(MessengerError::ReceiverDerivedKeyMismatch);
    }
    let decode_data = match decode_token_amount(data) {
        Err(_) => {
            return Err(MessengerError::InvalidDataProvided);
        },
        Ok(t) => t,
    };
    if decode_data.amount != record.amount {
        return Err(MessengerError::AmountMismatch);
    }
    let seeds = match derive_signer_seeds(sender, from_chain_id, program_id) {
        None => {
            return Err(MessengerError::InvalidCPI);
        },
        Some(ss) => ss,
    };
    txn_count.count = new_count;
    processed_vaa.transaction_count = new_count;
    *data_storage = record;
    Ok((decode_data.amount, seeds))
}

} // verus!
