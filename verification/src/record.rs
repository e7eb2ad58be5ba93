//! Opcode-specific payload decoders.
//!
//! Each decoder reads the fixed-offset fields of one opcode's payload,
//! checks that the embedded sender equals the supplied identity and that the
//! embedded target chain id is the single accepted one, and overwrites the
//! transaction record with the decoded intent. On any rejection the record
//! is left untouched, mirroring the all-or-nothing behaviour of the host.
use vstd::prelude::*;

use crate::bytes::{addr_eq, be256_is_one, lemma_u64_be_bytes_round_trip, read_bytes32,
    read_u64_be, spec_be256_is_one, spec_u64_to_be_bytes};
use crate::errors::MessengerError;
use crate::payload::{pchain_ok, pfield_bytes32, pfield_u64, spec_encode_stream,
    OP_STREAM_CREATE, XstreamStartPayload};
use crate::state::TransactionData;

verus! {

/// Outcome of decoding a stream-create payload: the embedded sender wallet
/// must equal the supplied sender and the target chain id must be 1.
pub open spec fn spec_process_stream(p: Seq<u8>, sender: Seq<u8>) -> Result<(), MessengerError> {
    if p.len() < 169 {
        Err(MessengerError::InvalidPayload)
    } else if pfield_bytes32(p, 57) != sender {
        Err(MessengerError::InvalidSenderWallet)
    } else if !pchain_ok(p, 25) {
        Err(MessengerError::InvalidToChainId)
    } else {
        Ok(())
    }
}

/// Decode a stream-create payload (opcode 2) into the transaction record.
pub fn process_stream(
    encoded: &Vec<u8>,
    from_chain_id: u16,
    transaction_data: &mut TransactionData,
    sender: &[u8; 32],
) -> (r: Result<(), MessengerError>)
    ensures
        r == spec_process_stream(encoded@, sender@),
        r is Err ==> *final(transaction_data) == *old(transaction_data),
        r is Ok ==> spec_stream_record(
            encoded@,
            from_chain_id,
            *old(transaction_data),
            *final(transaction_data),
        ),
{
    if encoded.len() < 169 {
        return Err(MessengerError::InvalidPayload);
    }
    let senderwallet_bytes = read_bytes32(encoded, 57);
    if !addr_eq(&senderwallet_bytes, sender) {
        return Err(MessengerError::InvalidSenderWallet);
    }
    if !be256_is_one(encoded, 25) {
        return Err(MessengerError::InvalidToChainId);
    }
    transaction_data.start_time = read_u64_be(encoded, 1);
    transaction_data.end_time = read_u64_be(encoded, 9);
    transaction_data.amount = read_u64_be(encoded, 17);
    transaction_data.can_update = read_u64_be(encoded, 121) == 1;
    transaction_data.can_cancel = read_u64_be(encoded, 129) == 1;
    transaction_data.sender = senderwallet_bytes;
    transaction_data.receiver = read_bytes32(encoded, 89);
    transaction_data.token_mint = read_bytes32(encoded, 137);
    transaction_data.from_chain_id = from_chain_id as u64;
    Ok(())
}

/// Outcome of decoding a stream-update payload.
pub open spec fn spec_process_update_stream(p: Seq<u8>, sender: Seq<u8>) -> Result<
    (),
    MessengerError,
> {
    if p.len() < 185 {
        Err(MessengerError::InvalidPayload)
    } else if pfield_bytes32(p, 57) != sender {
        Err(MessengerError::InvalidSenderWallet)
    } else if !pchain_ok(p, 25) {
        Err(MessengerError::InvalidToChainId)
    } else {
        Ok(())
    }
}

/// Decode a stream-update payload (opcode 14) into the transaction record.
pub fn process_update_stream(
    encoded: &Vec<u8>,
    from_chain_id: u16,
    transaction_data: &mut TransactionData,
    sender: &[u8; 32],
) -> (r: Result<(), MessengerError>)
    ensures
        r == spec_process_update_stream(encoded@, sender@),
        r is Err ==> *final(transaction_data) == *old(transaction_data),
        r is Ok ==> spec_update_stream_record(
            encoded@,
            from_chain_id,
            *old(transaction_data),
            *final(transaction_data),
        ),
{
    if encoded.len() < 185 {
        return Err(MessengerError::InvalidPayload);
    }
    let senderwallet_bytes = read_bytes32(encoded, 57);
    if !addr_eq(&senderwallet_bytes, sender) {
        return Err(MessengerError::InvalidSenderWallet);
    }
    if !be256_is_one(encoded, 25) {
        return Err(MessengerError::InvalidToChainId);
    }
    transaction_data.start_time = read_u64_be(encoded, 1);
    transaction_data.end_time = read_u64_be(encoded, 9);
    transaction_data.amount = read_u64_be(encoded, 17);
    transaction_data.sender = senderwallet_bytes;
    transaction_data.receiver = read_bytes32(encoded, 89);
    transaction_data.token_mint = read_bytes32(encoded, 121);
    transaction_data.data_account = read_bytes32(encoded, 153);
    transaction_data.from_chain_id = from_chain_id as u64;
    Ok(())
}

/// Outcome of decoding a deposit payload.
pub open spec fn spec_process_deposit(p: Seq<u8>, sender: Seq<u8>) -> Result<(), MessengerError> {
    if p.len() < 105 {
        Err(MessengerError::InvalidPayload)
    } else if pfield_bytes32(p, 41) != sender {
        Err(MessengerError::InvalidSenderWallet)
    } else if !pchain_ok(p, 9) {
        Err(MessengerError::InvalidToChainId)
    } else {
        Ok(())
    }
}

/// Decode a deposit payload (opcode 6) into the transaction record.
pub fn process_deposit(
    encoded: &Vec<u8>,
    from_chain_id: u16,
    transaction_data: &mut TransactionData,
    sender: &[u8; 32],
) -> (r: Result<(), MessengerError>)
    ensures
        r == spec_process_deposit(encoded@, sender@),
        r is Err ==> *final(transaction_data) == *old(transaction_data),
        r is Ok ==> spec_deposit_record(
            encoded@,
            from_chain_id,
            *old(transaction_data),
            *final(transaction_data),
        ),
{
    if encoded.len() < 105 {
        return Err(MessengerError::InvalidPayload);
    }
    let senderbytes = read_bytes32(encoded, 41);
    if !addr_eq(&senderbytes, sender) {
        return Err(MessengerError::InvalidSenderWallet);
    }
    if !be256_is_one(encoded, 9) {
        return Err(MessengerError::InvalidToChainId);
    }
    transaction_data.amount = read_u64_be(encoded, 1);
    transaction_data.sender = senderbytes;
    transaction_data.token_mint = read_bytes32(encoded, 73);
    transaction_data.from_chain_id = from_chain_id as u64;
    Ok(())
}

/// Outcome of decoding a pause/resume payload.
pub open spec fn spec_process_pause(p: Seq<u8>, sender: Seq<u8>) -> Result<(), MessengerError> {
    if p.len() < 161 {
        Err(MessengerError::InvalidPayload)
    } else if pfield_bytes32(p, 33) != sender {
        Err(MessengerError::InvalidSenderWallet)
    } else if !pchain_ok(p, 1) {
        Err(MessengerError::InvalidToChainId)
    } else {
        Ok(())
    }
}

/// Decode a pause/resume payload (opcode 8) into the transaction record.
pub fn process_pause(
    encoded: &Vec<u8>,
    from_chain_id: u16,
    transaction_data: &mut TransactionData,
    sender: &[u8; 32],
) -> (r: Result<(), MessengerError>)
    ensures
        r == spec_process_pause(encoded@, sender@),
        r is Err ==> *final(transaction_data) == *old(transaction_data),
        r is Ok ==> spec_pause_record(
            encoded@,
            from_chain_id,
            *old(transaction_data),
            *final(transaction_data),
        ),
{
    if encoded.len() < 161 {
        return Err(MessengerError::InvalidPayload);
    }
    let depositor_wallet_bytes = read_bytes32(encoded, 33);
    if !addr_eq(&depositor_wallet_bytes, sender) {
        return Err(MessengerError::InvalidSenderWallet);
    }
    if !be256_is_one(encoded, 1) {
        return Err(MessengerError::InvalidToChainId);
    }
    transaction_data.sender = depositor_wallet_bytes;
    transaction_data.receiver = read_bytes32(encoded, 97);
    transaction_data.token_mint = read_bytes32(encoded, 65);
    transaction_data.data_account = read_bytes32(encoded, 129);
    transaction_data.from_chain_id = from_chain_id as u64;
    Ok(())
}

/// Outcome of decoding a stream-withdraw payload: here the supplied identity
/// is the withdrawing receiver, not the stored sender.
pub open spec fn spec_process_withdraw_stream(p: Seq<u8>, receiver: Seq<u8>) -> Result<
    (),
    MessengerError,
> {
    if p.len() < 161 {
        Err(MessengerError::InvalidPayload)
    } else if pfield_bytes32(p, 33) != receiver {
        Err(MessengerError::InvalidSenderWallet)
    } else if !pchain_ok(p, 1) {
        Err(MessengerError::InvalidToChainId)
    } else {
        Ok(())
    }
}

/// Decode a stream-withdraw payload (opcode 4) into the transaction record.
/// The withdrawer is the stream's receiver; the depositor becomes the stored
/// sender.
pub fn process_withdraw_stream(
    encoded: &Vec<u8>,
    from_chain_id: u16,
    transaction_data: &mut TransactionData,
    receiver: &[u8; 32],
) -> (r: Result<(), MessengerError>)
    ensures
        r == spec_process_withdraw_stream(encoded@, receiver@),
        r is Err ==> *final(transaction_data) == *old(transaction_data),
        r is Ok ==> spec_withdraw_stream_record(
            encoded@,
            from_chain_id,
            *old(transaction_data),
            *final(transaction_data),
        ),
{
    if encoded.len() < 161 {
        return Err(MessengerError::InvalidPayload);
    }
    let withdrawer_wallet_bytes = read_bytes32(encoded, 33);
    if !addr_eq(&withdrawer_wallet_bytes, receiver) {
        return Err(MessengerError::InvalidSenderWallet);
    }
    if !be256_is_one(encoded, 1) {
        return Err(MessengerError::InvalidToChainId);
    }
    transaction_data.sender = read_bytes32(encoded, 97);
    transaction_data.receiver = withdrawer_wallet_bytes;
    transaction_data.token_mint = read_bytes32(encoded, 65);
    transaction_data.data_account = read_bytes32(encoded, 129);
    transaction_data.from_chain_id = from_chain_id as u64;
    Ok(())
}

/// Outcome of decoding a cancel-stream payload.
pub open spec fn spec_process_cancel_stream(p: Seq<u8>, sender: Seq<u8>) -> Result<
    (),
    MessengerError,
> {
    if p.len() < 161 {
        Err(MessengerError::InvalidPayload)
    } else if pfield_bytes32(p, 33) != sender {
        Err(MessengerError::InvalidSenderWallet)
    } else if !pchain_ok(p, 1) {
        Err(MessengerError::InvalidToChainId)
    } else {
        Ok(())
    }
}

/// Decode a cancel-stream payload (opcode 16) into the transaction record.
pub fn process_cancel_stream(
    encoded: &Vec<u8>,
    from_chain_id: u16,
    transaction_data: &mut TransactionData,
    sender: &[u8; 32],
) -> (r: Result<(), MessengerError>)
    ensures
        r == spec_process_cancel_stream(encoded@, sender@),
        r is Err ==> *final(transaction_data) == *old(transaction_data),
        r is Ok ==> spec_cancel_stream_record(
            encoded@,
            from_chain_id,
            *old(transaction_data),
            *final(transaction_data),
        ),
{
    if encoded.len() < 161 {
        return Err(MessengerError::InvalidPayload);
    }
    let depositor_wallet_bytes = read_bytes32(encoded, 33);
    if !addr_eq(&depositor_wallet_bytes, sender) {
        return Err(MessengerError::InvalidSenderWallet);
    }
    if !be256_is_one(encoded, 1) {
        return Err(MessengerError::InvalidToChainId);
    }
    transaction_data.sender = depositor_wallet_bytes;
    transaction_data.receiver = read_bytes32(encoded, 97);
    transaction_data.token_mint = read_bytes32(encoded, 65);
    transaction_data.data_account = read_bytes32(encoded, 129);
    transaction_data.from_chain_id = from_chain_id as u64;
    Ok(())
}

/// Outcome of decoding a deposit-withdraw payload.
pub open spec fn spec_process_withdraw(p: Seq<u8>, sender: Seq<u8>) -> Result<(), MessengerError> {
    if p.len() < 105 {
        Err(MessengerError::InvalidPayload)
    } else if pfield_bytes32(p, 41) != sender {
        Err(MessengerError::InvalidSenderWallet)
    } else if !pchain_ok(p, 9) {
        Err(MessengerError::InvalidToChainId)
    } else {
        Ok(())
    }
}

/// Decode a deposit-withdraw payload (opcode 10) into the transaction
/// record. The withdrawing sender reclaims deposited tokens.
pub fn process_withdraw(
    encoded: &Vec<u8>,
    from_chain_id: u16,
    transaction_data: &mut TransactionData,
    sender: &[u8; 32],
) -> (r: Result<(), MessengerError>)
    ensures
        r == spec_process_withdraw(encoded@, sender@),
        r is Err ==> *final(transaction_data) == *old(transaction_data),
        r is Ok ==> spec_withdraw_record(
            encoded@,
            from_chain_id,
            *old(transaction_data),
            *final(transaction_data),
        ),
{
    if encoded.len() < 105 {
        return Err(MessengerError::InvalidPayload);
    }
    let withdrawer_wallet_bytes = read_bytes32(encoded, 41);
    if !addr_eq(&withdrawer_wallet_bytes, sender) {
        return Err(MessengerError::InvalidSenderWallet);
    }
    if !be256_is_one(encoded, 9) {
        return Err(MessengerError::InvalidToChainId);
    }
    transaction_data.amount = read_u64_be(encoded, 1);
    transaction_data.sender = withdrawer_wallet_bytes;
    transaction_data.token_mint = read_bytes32(encoded, 73);
    transaction_data.from_chain_id = from_chain_id as u64;
    Ok(())
}

/// Outcome of decoding an instant-transfer payload.
pub open spec fn spec_process_instant_transfer(p: Seq<u8>, sender: Seq<u8>) -> Result<
    (),
    MessengerError,
> {
    if p.len() < 137 {
        Err(MessengerError::InvalidPayload)
    } else if pfield_bytes32(p, 41) != sender {
        Err(MessengerError::InvalidSenderWallet)
    } else if !pchain_ok(p, 9) {
        Err(MessengerError::InvalidToChainId)
    } else {
        Ok(())
    }
}

/// Decode an instant-transfer payload (opcode 12) into the transaction
/// record.
pub fn process_instant_transfer(
    encoded: &Vec<u8>,
    from_chain_id: u16,
    transaction_data: &mut TransactionData,
    sender: &[u8; 32],
) -> (r: Result<(), MessengerError>)
    ensures
        r == spec_process_instant_transfer(encoded@, sender@),
        r is Err ==> *final(transaction_data) == *old(transaction_data),
        r is Ok ==> spec_instant_transfer_record(
            encoded@,
            from_chain_id,
            *old(transaction_data),
            *final(transaction_data),
        ),
{
    if encoded.len() < 137 {
        return Err(MessengerError::InvalidPayload);
    }
    let senderwallet_bytes = read_bytes32(encoded, 41);
    if !addr_eq(&senderwallet_bytes, sender) {
        return Err(MessengerError::InvalidSenderWallet);
    }
    if !be256_is_one(encoded, 9) {
        return Err(MessengerError::InvalidToChainId);
    }
    transaction_data.amount = read_u64_be(encoded, 1);
    transaction_data.sender = senderwallet_bytes;
    transaction_data.receiver = read_bytes32(encoded, 105);
    transaction_data.token_mint = read_bytes32(encoded, 73);
    transaction_data.from_chain_id = from_chain_id as u64;
    Ok(())
}

/// Outcome of decoding a direct-transfer payload.
pub open spec fn spec_process_direct_transfer(p: Seq<u8>, sender: Seq<u8>) -> Result<
    (),
    MessengerError,
> {
    if p.len() < 137 {
        Err(MessengerError::InvalidPayload)
    } else if pfield_bytes32(p, 41) != sender {
        Err(MessengerError::InvalidSenderWallet)
    } else if !pchain_ok(p, 9) {
        Err(MessengerError::InvalidToChainId)
    } else {
        Ok(())
    }
}

/// Decode a direct-transfer payload (opcode 17) into the transaction record.
pub fn process_direct_transfer(
    encoded: &Vec<u8>,
    from_chain_id: u16,
    transaction_data: &mut TransactionData,
    sender: &[u8; 32],
) -> (r: Result<(), MessengerError>)
    ensures
        r == spec_process_direct_transfer(encoded@, sender@),
        r is Err ==> *final(transaction_data) == *old(transaction_data),
        r is Ok ==> spec_direct_transfer_record(
            encoded@,
            from_chain_id,
            *old(transaction_data),
            *final(transaction_data),
        ),
{
    if encoded.len() < 137 {
        return Err(MessengerError::InvalidPayload);
    }
    let senderwallet_bytes = read_bytes32(encoded, 41);
    if !addr_eq(&senderwallet_bytes, sender) {
        return Err(MessengerError::InvalidSenderWallet);
    }
    if !be256_is_one(encoded, 9) {
        return Err(MessengerError::InvalidToChainId);
    }
    transaction_data.amount = read_u64_be(encoded, 1);
    transaction_data.sender = senderwallet_bytes;
    transaction_data.receiver = read_bytes32(encoded, 105);
    transaction_data.token_mint = read_bytes32(encoded, 73);
    transaction_data.from_chain_id = from_chain_id as u64;
    Ok(())
}

/// The record written by a stream-create decode.
pub open spec fn spec_stream_record(
    p: Seq<u8>,
    from_chain_id: u16,
    old: TransactionData,
    new: TransactionData,
) -> bool {
    &&& new.start_time == pfield_u64(p, 1)
    &&& new.end_time == pfield_u64(p, 9)
    &&& new.amount == pfield_u64(p, 17)
    &&& new.can_update == (pfield_u64(p, 121) == 1)
    &&& new.can_cancel == (pfield_u64(p, 129) == 1)
    &&& new.from_chain_id == from_chain_id as u64
    &&& new.sender@ == pfield_bytes32(p, 57)
    &&& new.receiver@ == pfield_bytes32(p, 89)
    &&& new.token_mint@ == pfield_bytes32(p, 137)
    &&& new.data_account == old.data_account
}

/// The record written by a stream-update decode.
pub open spec fn spec_update_stream_record(
    p: Seq<u8>,
    from_chain_id: u16,
    old: TransactionData,
    new: TransactionData,
) -> bool {
    &&& new.start_time == pfield_u64(p, 1)
    &&& new.end_time == pfield_u64(p, 9)
    &&& new.amount == pfield_u64(p, 17)
    &&& new.from_chain_id == from_chain_id as u64
    &&& new.sender@ == pfield_bytes32(p, 57)
    &&& new.receiver@ == pfield_bytes32(p, 89)
    &&& new.token_mint@ == pfield_bytes32(p, 121)
    &&& new.data_account@ == pfield_bytes32(p, 153)
    &&& new.can_update == old.can_update
    &&& new.can_cancel == old.can_cancel
}

/// The record written by a deposit decode.
pub open spec fn spec_deposit_record(
    p: Seq<u8>,
    from_chain_id: u16,
    old: TransactionData,
    new: TransactionData,
) -> bool {
    &&& new.amount == pfield_u64(p, 1)
    &&& new.from_chain_id == from_chain_id as u64
    &&& new.sender@ == pfield_bytes32(p, 41)
    &&& new.token_mint@ == pfield_bytes32(p, 73)
    &&& new.receiver == old.receiver
    &&& new.data_account == old.data_account
    &&& new.start_time == old.start_time
    &&& new.end_time == old.end_time
    &&& new.can_update == old.can_update
    &&& new.can_cancel == old.can_cancel
}

/// The record written by a pause/resume decode.
pub open spec fn spec_pause_record(
    p: Seq<u8>,
    from_chain_id: u16,
    old: TransactionData,
    new: TransactionData,
) -> bool {
    &&& new.sender@ == pfield_bytes32(p, 33)
    &&& new.receiver@ == pfield_bytes32(p, 97)
    &&& new.token_mint@ == pfield_bytes32(p, 65)
    &&& new.data_account@ == pfield_bytes32(p, 129)
    &&& new.from_chain_id == from_chain_id as u64
    &&& new.amount == old.amount
    &&& new.start_time == old.start_time
    &&& new.end_time == old.end_time
    &&& new.can_update == old.can_update
    &&& new.can_cancel == old.can_cancel
}

/// The record written by a stream-withdraw decode.
pub open spec fn spec_withdraw_stream_record(
    p: Seq<u8>,
    from_chain_id: u16,
    old: TransactionData,
    new: TransactionData,
) -> bool {
    &&& new.sender@ == pfield_bytes32(p, 97)
    &&& new.receiver@ == pfield_bytes32(p, 33)
    &&& new.token_mint@ == pfield_bytes32(p, 65)
    &&& new.data_account@ == pfield_bytes32(p, 129)
    &&& new.from_chain_id == from_chain_id as u64
    &&& new.amount == old.amount
    &&& new.start_time == old.start_time
    &&& new.end_time == old.end_time
    &&& new.can_update == old.can_update
    &&& new.can_cancel == old.can_cancel
}

/// The record written by a cancel-stream decode.
pub open spec fn spec_cancel_stream_record(
    p: Seq<u8>,
    from_chain_id: u16,
    old: TransactionData,
    new: TransactionData,
) -> bool {
    &&& new.sender@ == pfield_bytes32(p, 33)
    &&& new.receiver@ == pfield_bytes32(p, 97)
    &&& new.token_mint@ == pfield_bytes32(p, 65)
    &&& new.data_account@ == pfield_bytes32(p, 129)
    &&& new.from_chain_id == from_chain_id as u64
    &&& new.amount == old.amount
    &&& new.start_time == old.start_time
    &&& new.end_time == old.end_time
    &&& new.can_update == old.can_update
    &&& new.can_cancel == old.can_cancel
}

/// The record written by a deposit-withdraw decode.
pub open spec fn spec_withdraw_record(
    p: Seq<u8>,
    from_chain_id: u16,
    old: TransactionData,
    new: TransactionData,
) -> bool {
    &&& new.amount == pfield_u64(p, 1)
    &&& new.sender@ == pfield_bytes32(p, 41)
    &&& new.token_mint@ == pfield_bytes32(p, 73)
    &&& new.from_chain_id == from_chain_id as u64
    &&& new.receiver == old.receiver
    &&& new.data_account == old.data_account
    &&& new.start_time == old.start_time
    &&& new.end_time == old.end_time
    &&& new.can_update == old.can_update
    &&& new.can_cancel == old.can_cancel
}

/// The record written by an instant-transfer decode.
pub open spec fn spec_instant_transfer_record(
    p: Seq<u8>,
    from_chain_id: u16,
    old: TransactionData,
    new: TransactionData,
) -> bool {
    &&& new.amount == pfield_u64(p, 1)
    &&& new.sender@ == pfield_bytes32(p, 41)
    &&& new.receiver@ == pfield_bytes32(p, 105)
    &&& new.token_mint@ == pfield_bytes32(p, 73)
    &&& new.from_chain_id == from_chain_id as u64
    &&& new.data_account == old.data_account
    &&& new.start_time == old.start_time
    &&& new.end_time == old.end_time
    &&& new.can_update == old.can_update
    &&& new.can_cancel == old.can_cancel
}

/// The record written by a direct-transfer decode.
pub open spec fn spec_direct_transfer_record(
    p: Seq<u8>,
    from_chain_id: u16,
    old: TransactionData,
    new: TransactionData,
) -> bool {
    &&& new.amount == pfield_u64(p, 1)
    &&& new.sender@ == pfield_bytes32(p, 41)
    &&& new.receiver@ == pfield_bytes32(p, 105)
    &&& new.token_mint@ == pfield_bytes32(p, 73)
    &&& new.from_chain_id == from_chain_id as u64
    &&& new.data_account == old.data_account
    &&& new.start_time == old.start_time
    &&& new.end_time == old.end_time
    &&& new.can_update == old.can_update
    &&& new.can_cancel == old.can_cancel
}

/// Law: encoding a stream-create payload and decoding it yields back
/// exactly the encoded fields. Decoding accepts the supplied sender only
/// when it equals the encoded one, rejecting any other with
/// `InvalidSenderWallet`, and accepts the payload only when its target
/// chain id is 1.
pub proof fn lemma_stream_payload_round_trip(x: XstreamStartPayload)
    ensures
        ({
            let enc = spec_encode_stream(x);
            &&& enc.len() == 169
            &&& enc[0] == OP_STREAM_CREATE
            &&& pfield_u64(enc, 1) == x.start_time
            &&& pfield_u64(enc, 9) == x.end_time
            &&& pfield_u64(enc, 17) == x.amount
            &&& pfield_bytes32(enc, 25) == x.to_chain_id@
            &&& pfield_bytes32(enc, 57) == x.sender@
            &&& pfield_bytes32(enc, 89) == x.receiver@
            &&& pfield_u64(enc, 121) == x.can_update
            &&& pfield_u64(enc, 129) == x.can_cancel
            &&& pfield_bytes32(enc, 137) == x.token_mint@
            &&& spec_process_stream(enc, x.sender@) == (if spec_be256_is_one(x.to_chain_id@) {
                Ok::<(), MessengerError>(())
            } else {
                Err::<(), MessengerError>(MessengerError::InvalidToChainId)
            })
            &&& forall|s: Seq<u8>|
                s != x.sender@ ==> spec_process_stream(enc, s) == Err::<(), MessengerError>(
                    MessengerError::InvalidSenderWallet,
                )
            &&& forall|chain: u16, old: TransactionData, new: TransactionData|
                #[trigger] spec_stream_record(enc, chain, old, new) ==> {
                    &&& new.start_time == x.start_time
                    &&& new.end_time == x.end_time
                    &&& new.amount == x.amount
                    &&& new.sender@ == x.sender@
                    &&& new.receiver@ == x.receiver@
                    &&& new.token_mint@ == x.token_mint@
                    &&& new.can_update == (x.can_update == 1)
                    &&& new.can_cancel == (x.can_cancel == 1)
                    &&& new.from_chain_id == chain as u64
                }
        }),
{
    vstd::bytes::lemma_auto_spec_u64_to_from_le_bytes();
    let enc = spec_encode_stream(x);
    assert(spec_u64_to_be_bytes(x.start_time).len() == 8);
    assert(enc.len() == 169);
    assert(enc.subrange(1, 9) =~= spec_u64_to_be_bytes(x.start_time));
    assert(enc.subrange(9, 17) =~= spec_u64_to_be_bytes(x.end_time));
    assert(enc.subrange(17, 25) =~= spec_u64_to_be_bytes(x.amount));
    assert(enc.subrange(25, 57) =~= x.to_chain_id@);
    assert(enc.subrange(57, 89) =~= x.sender@);
    assert(enc.subrange(89, 121) =~= x.receiver@);
    assert(enc.subrange(121, 129) =~= spec_u64_to_be_bytes(x.can_update));
    assert(enc.subrange(129, 137) =~= spec_u64_to_be_bytes(x.can_cancel));
    assert(enc.subrange(137, 169) =~= x.token_mint@);
    lemma_u64_be_bytes_round_trip(x.start_time, enc.subrange(1, 9));
    lemma_u64_be_bytes_round_trip(x.end_time, enc.subrange(9, 17));
    lemma_u64_be_bytes_round_trip(x.amount, enc.subrange(17, 25));
    lemma_u64_be_bytes_round_trip(x.can_update, enc.subrange(121, 129));
    lemma_u64_be_bytes_round_trip(x.can_cancel, enc.subrange(129, 137));
}

} // verus!
