//! Persistent record types of the relay's ledger.
//!
//! Each struct mirrors one record kind the host ledger stores for this
//! program; handlers receive them as plain values and the host's storage
//! layer is left outside the library.
use vstd::prelude::*;

verus! {

/// Global singleton configuration: the administrative owner and the nonce
/// used to make outbound bridge messages unique.
pub struct Config {
    pub owner: [u8; 32],
    pub nonce: u32,
}

/// A registered trusted emitter: the remote chain id and the hex text of the
/// remote emitter address.
pub struct EmitterAddrAccount {
    pub chain_id: u16,
    pub emitter_addr: String,
}

/// Per-sender monotonic sequence counter.
#[derive(Clone, Copy)]
pub struct Count {
    pub count: u64,
}

/// Marker stored once per processed attested message; remembers the sequence
/// count under which the message was accepted.
pub struct ProcessedVAA {
    pub transaction_count: u64,
}

/// Per-(sender, sequence) flag guarding at-most-once execution.
#[derive(Clone, Copy)]
pub struct TransactionStatus {
    pub executed: bool,
}

/// The decoded, validated intent of one inbound operation.
#[derive(Clone, Copy)]
pub struct TransactionData {
    pub sender: [u8; 32],
    pub receiver: [u8; 32],
    pub data_account: [u8; 32],
    pub from_chain_id: u64,
    pub token_mint: [u8; 32],
    pub amount: u64,
    pub start_time: u64,
    pub end_time: u64,
    pub can_update: bool,
    pub can_cancel: bool,
}

/// One account required by a stored downstream instruction.
#[derive(Clone, Copy)]
pub struct TransactionAccount {
    pub pubkey: [u8; 32],
    pub is_signer: bool,
    pub is_writable: bool,
}

/// A stored pending downstream call: target program, account list, raw
/// instruction data, and the one-time execution flag.
pub struct Transaction {
    pub program_id: [u8; 32],
    pub accounts: Vec<TransactionAccount>,
    pub data: Vec<u8>,
    pub did_execute: bool,
}

/// A concrete downstream instruction ready to be invoked.
pub struct Instruction {
    pub program_id: [u8; 32],
    pub accounts: Vec<TransactionAccount>,
    pub data: Vec<u8>,
}

/// The amount argument carried by deposit, withdraw and instant-transfer
/// instruction data.
#[derive(Clone, Copy)]
pub struct TokenAmount {
    pub amount: u64,
}

/// The argument block carried by stream-create instruction data.
#[derive(Clone, Copy)]
pub struct Stream {
    pub start_time: u64,
    pub end_time: u64,
    pub amount: u64,
    pub can_cancel: bool,
    pub can_update: bool,
}

/// The argument block carried by stream-update instruction data.
#[derive(Clone, Copy)]
pub struct StreamUpdate {
    pub start_time: u64,
    pub end_time: u64,
    pub amount: u64,
}

/// Copy a list of transaction accounts.
pub fn clone_accounts(accs: &Vec<TransactionAccount>) -> (r: Vec<TransactionAccount>)
    ensures
        r@ == accs@,
{
    let mut r: Vec<TransactionAccount> = Vec::new();
    let mut i: usize = 0;
    while i < accs.len()
        invariant
            i <= accs@.len(),
            r@ =~= accs@.subrange(0, i as int),
        decreases accs@.len() - i,
    {
        r.push(accs[i]);
        i = i + 1;
    }
    proof {
        assert(r@ =~= accs@);
    }
    r
}

/// Copy a byte vector.
pub fn clone_bytes(bytes: &Vec<u8>) -> (r: Vec<u8>)
    ensures
        r@ == bytes@,
{
    let mut r: Vec<u8> = Vec::new();
    let mut i: usize = 0;
    while i < bytes.len()
        invariant
            i <= bytes@.len(),
            r@ =~= bytes@.subrange(0, i as int),
        decreases bytes@.len() - i,
    {
        r.push(bytes[i]);
        i = i + 1;
    }
    proof {
        assert(r@ =~= bytes@);
    }
    r
}

impl Transaction {
    /// The concrete instruction a stored pending call stands for.
    pub fn to_instruction(&self) -> (r: Instruction)
        ensures
            r.program_id@ == self.program_id@,
            r.accounts@ == self.accounts@,
            r.data@ == self.data@,
    {
        Instruction {
            program_id: self.program_id,
            accounts: clone_accounts(&self.accounts),
            data: clone_bytes(&self.data),
        }
    }
}

} // verus!
