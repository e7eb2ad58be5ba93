//! Client-side payload records and their wire encodings.
//!
//! Every inbound operation travels as a flat byte payload: a one-byte opcode
//! followed by big-endian integers and raw 32-byte fields at fixed offsets.
//! The structs here carry the fields of each operation; the encoders produce
//! exactly the byte layout the decoders in `record` read back.
use vstd::prelude::*;
use vstd::bytes::{spec_u16_to_le_bytes, spec_u32_to_le_bytes, spec_u64_to_le_bytes,
    u16_to_le_bytes, u32_to_le_bytes, u64_to_le_bytes};
use vstd::slice::slice_to_vec;

use crate::bytes::{spec_u64_from_be_bytes, spec_u64_to_be_bytes, spec_u32_to_be_bytes,
    spec_u16_to_be_bytes, spec_be256_is_one, u64_to_be_bytes_vec, u32_to_be_bytes_vec,
    u16_to_be_bytes_vec};

verus! {

/// Opcode of a stream-create payload.
pub const OP_STREAM_CREATE: u8 = 2;

/// Opcode of a stream-withdraw payload.
pub const OP_WITHDRAW_STREAM: u8 = 4;

/// Opcode of a deposit payload.
pub const OP_DEPOSIT: u8 = 6;

/// Opcode of a pause/resume payload.
pub const OP_PAUSE: u8 = 8;

/// Opcode of a deposit-withdraw payload.
pub const OP_WITHDRAW: u8 = 10;

/// Opcode of an instant-transfer payload.
pub const OP_INSTANT_TRANSFER: u8 = 12;

/// Opcode of a stream-update payload.
pub const OP_STREAM_UPDATE: u8 = 14;

/// Opcode of a cancel-stream payload.
pub const OP_CANCEL_STREAM: u8 = 16;

/// Opcode of a direct-transfer payload.
pub const OP_DIRECT_TRANSFER: u8 = 17;

/// Opcode of a derived-account bootstrap payload.
pub const OP_INIT_PDA: u8 = 18;

/// Opcode of a derived-token-account bootstrap payload.
pub const OP_INIT_PDA_TOKEN: u8 = 19;

/// The big-endian `u64` at offset `off` of a payload.
pub open spec fn pfield_u64(p: Seq<u8>, off: int) -> u64 {
    spec_u64_from_be_bytes(p.subrange(off, off + 8))
}

/// The 32 raw bytes at offset `off` of a payload.
pub open spec fn pfield_bytes32(p: Seq<u8>, off: int) -> Seq<u8> {
    p.subrange(off, off + 32)
}

/// Whether the 32-byte target-chain field at offset `off` is the single
/// accepted target id, the 256-bit integer 1.
pub open spec fn pchain_ok(p: Seq<u8>, off: int) -> bool {
    spec_be256_is_one(p.subrange(off, off + 32))
}

/// Fields of a stream-create payload (opcode 2).
pub struct XstreamStartPayload {
    pub start_time: u64,
    pub end_time: u64,
    pub amount: u64,
    pub to_chain_id: [u8; 32],
    pub sender: [u8; 32],
    pub receiver: [u8; 32],
    pub can_update: u64,
    pub can_cancel: u64,
    pub token_mint: [u8; 32],
}

/// Fields of a deposit payload (opcode 6).
pub struct XstreamDepositPayload {
    pub amount: u64,
    pub to_chain_id: [u8; 32],
    pub sender: [u8; 32],
    pub token_mint: [u8; 32],
}

/// Fields of a stream-update payload (opcode 14). The wire format carries
/// no permission flags; the two flag fields exist only on this record.
pub struct XstreamUpdatePayload {
    pub start_time: u64,
    pub end_tme: u64,
    pub amount: u64,
    pub to_chain_id: [u8; 32],
    pub sender: [u8; 32],
    pub receiver: [u8; 32],
    pub can_update: u64,
    pub can_cancel: u64,
    pub token_mint: [u8; 32],
    pub data_account: [u8; 32],
}

/// Fields of a pause/resume payload (opcode 8).
pub struct XstreamPausePayload {
    pub to_chain_id: [u8; 32],
    pub depositor: [u8; 32],
    pub token_mint: [u8; 32],
    pub receiver: [u8; 32],
    pub data_account: [u8; 32],
}

/// Fields of a stream-withdraw payload (opcode 4).
pub struct XstreamWithdrawPayload {
    pub to_chain_id: [u8; 32],
    pub withdrawer: [u8; 32],
    pub token_mint: [u8; 32],
    pub depositor: [u8; 32],
    pub data_account: [u8; 32],
}

/// Fields of a cancel-stream payload (opcode 16).
pub struct XstreamCancelPayload {
    pub to_chain_id: [u8; 32],
    pub depositor: [u8; 32],
    pub token_mint: [u8; 32],
    pub receiver: [u8; 32],
    pub data_account: [u8; 32],
}

/// Fields of a deposit-withdraw payload (opcode 10).
pub struct XstreamWithdrawDepositPayload {
    pub amount: u64,
    pub to_chain_id: [u8; 32],
    pub withdrawer: [u8; 32],
    pub token_mint: [u8; 32],
}

/// Fields of an instant-transfer payload (opcode 12).
pub struct XstreamInstantTransferPayload {
    pub amount: u64,
    pub to_chain_id: [u8; 32],
    pub sender: [u8; 32],
    pub token_mint: [u8; 32],
    pub receiver: [u8; 32],
}

/// Fields of a direct-transfer payload (opcode 17).
pub struct XstreamDirectTransferPayload {
    pub amount: u64,
    pub to_chain_id: [u8; 32],
    pub sender: [u8; 32],
    pub token_mint: [u8; 32],
    pub withdrawer: [u8; 32],
}

/// Append the bytes of a 32-byte field to a payload under construction.
pub fn push_bytes32(dst: &mut Vec<u8>, a: &[u8; 32])
    ensures
        final(dst)@ == old(dst)@ + a@,
{
    let mut v = slice_to_vec(a.as_slice());
    dst.append(&mut v);
}

/// Append a big-endian `u64` field to a payload under construction.
pub fn push_u64_be(dst: &mut Vec<u8>, x: u64)
    ensures
        final(dst)@ == old(dst)@ + spec_u64_to_be_bytes(x),
{
    let mut v = u64_to_be_bytes_vec(x);
    dst.append(&mut v);
}

/// The wire encoding of a stream-create payload.
pub open spec fn spec_encode_stream(p: XstreamStartPayload) -> Seq<u8> {
    seq![OP_STREAM_CREATE] + spec_u64_to_be_bytes(p.start_time) + spec_u64_to_be_bytes(p.end_time)
        + spec_u64_to_be_bytes(p.amount) + p.to_chain_id@ + p.sender@ + p.receiver@
        + spec_u64_to_be_bytes(p.can_update) + spec_u64_to_be_bytes(p.can_cancel) + p.token_mint@
}

/// Encode a stream-create payload as opcode 2 wire bytes.
pub fn encode_stream_payload(p: &XstreamStartPayload) -> (r: Vec<u8>)
    ensures
        r@ == spec_encode_stream(*p),
        r@.len() == 169,
{
    let mut r: Vec<u8> = Vec::new();
    r.push(OP_STREAM_CREATE);
    push_u64_be(&mut r, p.start_time);
    push_u64_be(&mut r, p.end_time);
    push_u64_be(&mut r, p.amount);
    push_bytes32(&mut r, &p.to_chain_id);
    push_bytes32(&mut r, &p.sender);
    push_bytes32(&mut r, &p.receiver);
    push_u64_be(&mut r, p.can_update);
    push_u64_be(&mut r, p.can_cancel);
    push_bytes32(&mut r, &p.token_mint);
    proof {
        vstd::bytes::lemma_auto_spec_u64_to_from_le_bytes();
        assert(r@ =~= spec_encode_stream(*p));
    }
    r
}

/// The wire encoding of a deposit payload.
pub open spec fn spec_encode_deposit(p: XstreamDepositPayload) -> Seq<u8> {
    seq![OP_DEPOSIT] + spec_u64_to_be_bytes(p.amount) + p.to_chain_id@ + p.sender@ + p.token_mint@
}

/// Encode a deposit payload as opcode 6 wire bytes.
pub fn encode_deposit_payload(p: &XstreamDepositPayload) -> (r: Vec<u8>)
    ensures
        r@ == spec_encode_deposit(*p),
        r@.len() == 105,
{
    let mut r: Vec<u8> = Vec::new();
    r.push(OP_DEPOSIT);
    push_u64_be(&mut r, p.amount);
    push_bytes32(&mut r, &p.to_chain_id);
    push_bytes32(&mut r, &p.sender);
    push_bytes32(&mut r, &p.token_mint);
    proof {
        vstd::bytes::lemma_auto_spec_u64_to_from_le_bytes();
        assert(r@ =~= spec_encode_deposit(*p));
    }
    r
}

/// The wire encoding of a stream-update payload. The permission flags are
/// not part of the wire format.
pub open spec fn spec_encode_update(p: XstreamUpdatePayload) -> Seq<u8> {
    seq![OP_STREAM_UPDATE] + spec_u64_to_be_bytes(p.start_time) + spec_u64_to_be_bytes(p.end_tme)
        + spec_u64_to_be_bytes(p.amount) + p.to_chain_id@ + p.sender@ + p.receiver@
        + p.token_mint@ + p.data_account@
}

/// Encode a stream-update payload as opcode 14 wire bytes.
pub fn encode_update_payload(p: &XstreamUpdatePayload) -> (r: Vec<u8>)
    ensures
        r@ == spec_encode_update(*p),
        r@.len() == 185,
{
    let mut r: Vec<u8> = Vec::new();
    r.push(OP_STREAM_UPDATE);
    push_u64_be(&mut r, p.start_time);
    push_u64_be(&mut r, p.end_tme);
    push_u64_be(&mut r, p.amount);
    push_bytes32(&mut r, &p.to_chain_id);
    push_bytes32(&mut r, &p.sender);
    push_bytes32(&mut r, &p.receiver);
    push_bytes32(&mut r, &p.token_mint);
    push_bytes32(&mut r, &p.data_account);
    proof {
        vstd::bytes::lemma_auto_spec_u64_to_from_le_bytes();
        assert(r@ =~= spec_encode_update(*p));
    }
    r
}

/// The wire encoding of a pause/resume payload.
pub open spec fn spec_encode_pause(p: XstreamPausePayload) -> Seq<u8> {
    seq![OP_PAUSE] + p.to_chain_id@ + p.depositor@ + p.token_mint@ + p.receiver@ + p.data_account@
}

/// Encode a pause/resume payload as opcode 8 wire bytes.
pub fn encode_pause_payload(p: &XstreamPausePayload) -> (r: Vec<u8>)
    ensures
        r@ == spec_encode_pause(*p),
        r@.len() == 161,
{
    let mut r: Vec<u8> = Vec::new();
    r.push(OP_PAUSE);
    push_bytes32(&mut r, &p.to_chain_id);
    push_bytes32(&mut r, &p.depositor);
    push_bytes32(&mut r, &p.token_mint);
    push_bytes32(&mut r, &p.receiver);
    push_bytes32(&mut r, &p.data_account);
    proof {
        assert(r@ =~= spec_encode_pause(*p));
    }
    r
}

/// The wire encoding of a stream-withdraw payload.
pub open spec fn spec_encode_withdraw_stream(p: XstreamWithdrawPayload) -> Seq<u8> {
    seq![OP_WITHDRAW_STREAM] + p.to_chain_id@ + p.withdrawer@ + p.token_mint@ + p.depositor@
        + p.data_account@
}

/// Encode a stream-withdraw payload as opcode 4 wire bytes.
pub fn encode_withdraw_stream_payload(p: &XstreamWithdrawPayload) -> (r: Vec<u8>)
    ensures
        r@ == spec_encode_withdraw_stream(*p),
        r@.len() == 161,
{
    let mut r: Vec<u8> = Vec::new();
    r.push(OP_WITHDRAW_STREAM);
    push_bytes32(&mut r, &p.to_chain_id);
    push_bytes32(&mut r, &p.withdrawer);
    push_bytes32(&mut r, &p.token_mint);
    push_bytes32(&mut r, &p.depositor);
    push_bytes32(&mut r, &p.data_account);
    proof {
        assert(r@ =~= spec_encode_withdraw_stream(*p));
    }
    r
}

/// The wire encoding of a cancel-stream payload.
pub open spec fn spec_encode_cancel(p: XstreamCancelPayload) -> Seq<u8> {
    seq![OP_CANCEL_STREAM] + p.to_chain_id@ + p.depositor@ + p.token_mint@ + p.receiver@
        + p.data_account@
}

/// Encode a cancel-stream payload as opcode 16 wire bytes.
pub fn encode_cancel_payload(p: &XstreamCancelPayload) -> (r: Vec<u8>)
    ensures
        r@ == spec_encode_cancel(*p),
        r@.len() == 161,
{
    let mut r: Vec<u8> = Vec::new();
    r.push(OP_CANCEL_STREAM);
    push_bytes32(&mut r, &p.to_chain_id);
    push_bytes32(&mut r, &p.depositor);
    push_bytes32(&mut r, &p.token_mint);
    push_bytes32(&mut r, &p.receiver);
    push_bytes32(&mut r, &p.data_account);
    proof {
        assert(r@ =~= spec_encode_cancel(*p));
    }
    r
}

/// The wire encoding of a deposit-withdraw payload.
pub open spec fn spec_encode_withdraw(p: XstreamWithdrawDepositPayload) -> Seq<u8> {
    seq![OP_WITHDRAW] + spec_u64_to_be_bytes(p.amount) + p.to_chain_id@ + p.withdrawer@
        + p.token_mint@
}

/// Encode a deposit-withdraw payload as opcode 10 wire bytes.
pub fn encode_withdraw_payload(p: &XstreamWithdrawDepositPayload) -> (r: Vec<u8>)
    ensures
        r@ == spec_encode_withdraw(*p),
        r@.len() == 105,
{
    let mut r: Vec<u8> = Vec::new();
    r.push(OP_WITHDRAW);
    push_u64_be(&mut r, p.amount);
    push_bytes32(&mut r, &p.to_chain_id);
    push_bytes32(&mut r, &p.withdrawer);
    push_bytes32(&mut r, &p.token_mint);
    proof {
        vstd::bytes::lemma_auto_spec_u64_to_from_le_bytes();
        assert(r@ =~= spec_encode_withdraw(*p));
    }
    r
}

/// The wire encoding of an instant-transfer payload.
pub open spec fn spec_encode_instant_transfer(p: XstreamInstantTransferPayload) -> Seq<u8> {
    seq![OP_INSTANT_TRANSFER] + spec_u64_to_be_bytes(p.amount) + p.to_chain_id@ + p.sender@
        + p.token_mint@ + p.receiver@
}

/// Encode an instant-transfer payload as opcode 12 wire bytes.
pub fn encode_instant_transfer_payload(p: &XstreamInstantTransferPayload) -> (r: Vec<u8>)
    ensures
        r@ == spec_encode_instant_transfer(*p),
        r@.len() == 137,
{
    let mut r: Vec<u8> = Vec::new();
    r.push(OP_INSTANT_TRANSFER);
    push_u64_be(&mut r, p.amount);
    push_bytes32(&mut r, &p.to_chain_id);
    push_bytes32(&mut r, &p.sender);
    push_bytes32(&mut r, &p.token_mint);
    push_bytes32(&mut r, &p.receiver);
    proof {
        vstd::bytes::lemma_auto_spec_u64_to_from_le_bytes();
        assert(r@ =~= spec_encode_instant_transfer(*p));
    }
    r
}

/// The wire encoding of a direct-transfer payload.
pub open spec fn spec_encode_direct_transfer(p: XstreamDirectTransferPayload) -> Seq<u8> {
    seq![OP_DIRECT_TRANSFER] + spec_u64_to_be_bytes(p.amount) + p.to_chain_id@ + p.sender@
        + p.token_mint@ + p.withdrawer@
}

/// Encode a direct-transfer payload as opcode 17 wire bytes.
pub fn encode_direct_transfer_payload(p: &XstreamDirectTransferPayload) -> (r: Vec<u8>)
    ensures
        r@ == spec_encode_direct_transfer(*p),
        r@.len() == 137,
{
    let mut r: Vec<u8> = Vec::new();
    r.push(OP_DIRECT_TRANSFER);
    push_u64_be(&mut r, p.amount);
    push_bytes32(&mut r, &p.to_chain_id);
    push_bytes32(&mut r, &p.sender);
    push_bytes32(&mut r, &p.token_mint);
    push_bytes32(&mut r, &p.withdrawer);
    proof {
        vstd::bytes::lemma_auto_spec_u64_to_from_le_bytes();
        assert(r@ =~= spec_encode_direct_transfer(*p));
    }
    r
}

/// Append a big-endian `u32` field to a payload under construction.
pub fn push_u32_be(dst: &mut Vec<u8>, x: u32)
    ensures
        final(dst)@ == old(dst)@ + spec_u32_to_be_bytes(x),
{
    let mut v = u32_to_be_bytes_vec(x);
    dst.append(&mut v);
}

/// Append a big-endian `u16` field to a payload under construction.
pub fn push_u16_be(dst: &mut Vec<u8>, x: u16)
    ensures
        final(dst)@ == old(dst)@ + spec_u16_to_be_bytes(x),
{
    let mut v = u16_to_be_bytes_vec(x);
    dst.append(&mut v);
}

/// Append a little-endian `u64` field to an instruction-data blob.
pub fn push_u64_le(dst: &mut Vec<u8>, x: u64)
    ensures
        final(dst)@ == old(dst)@ + spec_u64_to_le_bytes(x),
{
    let mut v = u64_to_le_bytes(x);
    dst.append(&mut v);
}

/// Append a little-endian `u32` field to an instruction-data blob.
pub fn push_u32_le(dst: &mut Vec<u8>, x: u32)
    ensures
        final(dst)@ == old(dst)@ + spec_u32_to_le_bytes(x),
{
    let mut v = u32_to_le_bytes(x);
    dst.append(&mut v);
}

/// Append a little-endian `u16` field to an instruction-data blob.
pub fn push_u16_le(dst: &mut Vec<u8>, x: u16)
    ensures
        final(dst)@ == old(dst)@ + spec_u16_to_le_bytes(x),
{
    let mut v = u16_to_le_bytes(x);
    dst.append(&mut v);
}

} // verus!
