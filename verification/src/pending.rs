//! The two-phase executor over stored pending calls.
//!
//! A pending call is created against the validated transaction record and
//! later executed exactly once: the stored account list is rewritten so that
//! the program's derived authority signs, and the caller receives the
//! concrete instruction together with the seeds that synthesize the
//! authority's signature.
use vstd::prelude::*;
use vstd::slice::slice_to_vec;
use vstd::bytes::spec_u64_from_le_bytes;

use crate::bytes::{addr_eq, read_u64_le, spec_u16_to_be_bytes, u16_to_be_bytes_vec};
use crate::errors::MessengerError;
use crate::state::{
    clone_bytes, Instruction, Stream, StreamUpdate, TokenAmount, Transaction, TransactionAccount,
    TransactionData, TransactionStatus,
};
use crate::vaa::{derive_identity_address_u16, derive_identity_address_u64, spec_identity_pda_u16,
    spec_identity_pda_u64};

verus! {

/// A downstream instruction ready to invoke, with the derived authority and
/// the seeds that prove it: the identity bytes, the big-endian chain id, and
/// the bump.
pub struct PreparedInvocation {
    pub instruction: Instruction,
    pub signer: [u8; 32],
    pub seeds: Vec<Vec<u8>>,
}

/// Whether the stored identity's derived address equals the supplied
/// account, deriving with the stored 64-bit chain id.
pub open spec fn spec_pda_matches(
    identity: Seq<u8>,
    chain_id: u64,
    program_id: Seq<u8>,
    passed: Seq<u8>,
) -> bool {
    match spec_identity_pda_u64(identity, chain_id, program_id) {
        Some(p) => p.0 == passed,
        None => false,
    }
}

/// Check a supplied account against an identity's derived address.
pub fn pda_matches(
    identity: &[u8; 32],
    chain_id: u64,
    program_id: &[u8; 32],
    passed: &[u8; 32],
) -> (r: bool)
    ensures
        r == spec_pda_matches(identity@, chain_id, program_id@, passed@),
{
    match derive_identity_address_u64(identity, chain_id, program_id) {
        None => false,
        Some((derived, _bump)) => addr_eq(&derived, passed),
    }
}

/// The amount decoded from deposit-style instruction data: an eight-byte
/// discriminator followed by a little-endian amount.
pub open spec fn spec_decode_token_amount(d: Seq<u8>) -> Result<u64, MessengerError> {
    if d.len() == 16 {
        Ok(spec_u64_from_le_bytes(d.subrange(8, 16)))
    } else {
        Err(MessengerError::InvalidDataProvided)
    }
}

/// Decode the amount argument of deposit-style instruction data.
pub fn decode_token_amount(data: &Vec<u8>) -> (r: Result<TokenAmount, MessengerError>)
    ensures
        r matches Ok(t) ==> spec_decode_token_amount(data@) == Ok::<u64, MessengerError>(t.amount),
        r matches Err(e) ==> spec_decode_token_amount(data@) == Err::<u64, MessengerError>(e),
{
    if data.len() != 16 {
        return Err(MessengerError::InvalidDataProvided);
    }
    let amount = read_u64_le(data, 8);
    Ok(TokenAmount { amount })
}

/// The stream arguments decoded from stream-create instruction data: an
/// eight-byte discriminator, three little-endian integers, and two strict
/// boolean bytes.
pub open spec fn spec_decode_stream_args(d: Seq<u8>) -> Result<Stream, MessengerError> {
    if d.len() == 34 && d[32] <= 1 && d[33] <= 1 {
        Ok(
            Stream {
                start_time: spec_u64_from_le_bytes(d.subrange(8, 16)),
                end_time: spec_u64_from_le_bytes(d.subrange(16, 24)),
                amount: spec_u64_from_le_bytes(d.subrange(24, 32)),
                can_cancel: d[32] == 1,
                can_update: d[33] == 1,
            },
        )
    } else {
        Err(MessengerError::InvalidDataProvided)
    }
}

/// Decode the stream arguments of stream-create instruction data.
pub fn decode_stream_args(data: &Vec<u8>) -> (r: Result<Stream, MessengerError>)
    ensures
        r == spec_decode_stream_args(data@),
{
    if data.len() != 34 {
        return Err(MessengerError::InvalidDataProvided);
    }
    let cancel_byte = data[32];
    let update_byte = data[33];
    if cancel_byte > 1 || update_byte > 1 {
        return Err(MessengerError::InvalidDataProvided);
    }
    Ok(
        Stream {
            start_time: read_u64_le(data, 8),
            end_time: read_u64_le(data, 16),
            amount: read_u64_le(data, 24),
            can_cancel: cancel_byte == 1,
            can_update: update_byte == 1,
        },
    )
}

/// The update arguments decoded from stream-update instruction data: an
/// eight-byte discriminator and three little-endian integers.
pub open spec fn spec_decode_stream_update_args(d: Seq<u8>) -> Result<
    StreamUpdate,
    MessengerError,
> {
    if d.len() == 32 {
        Ok(
            StreamUpdate {
                start_time: spec_u64_from_le_bytes(d.subrange(8, 16)),
                end_time: spec_u64_from_le_bytes(d.subrange(16, 24)),
                amount: spec_u64_from_le_bytes(d.subrange(24, 32)),
            },
        )
    } else {
        Err(MessengerError::InvalidDataProvided)
    }
}

/// Decode the arguments of stream-update instruction data.
pub fn decode_stream_update_args(data: &Vec<u8>) -> (r: Result<StreamUpdate, MessengerError>)
    ensures
        r == spec_decode_stream_update_args(data@),
{
    if data.len() != 32 {
        return Err(MessengerError::InvalidDataProvided);
    }
    Ok(
        StreamUpdate {
            start_time: read_u64_le(data, 8),
            end_time: read_u64_le(data, 16),
            amount: read_u64_le(data, 24),
        },
    )
}

/// The account list with every entry whose address equals the derived
/// authority marked as a signer; all other entries keep their flags.
pub open spec fn spec_mark_signer(
    accs: Seq<TransactionAccount>,
    signer: Seq<u8>,
) -> Seq<TransactionAccount> {
    accs.map(
        |i: int, a: TransactionAccount|
            TransactionAccount {
                pubkey: a.pubkey,
                is_signer: a.pubkey@ == signer || a.is_signer,
                is_writable: a.is_writable,
            },
    )
}

/// Rewrite an account list so the derived authority signs: an entry whose
/// address equals `signer` is marked as a signer, every other entry is left
/// as supplied.
#[verifier::loop_isolation(false)]
pub fn mark_signer_accounts(accs: &Vec<TransactionAccount>, signer: &[u8; 32]) -> (r: Vec<
    TransactionAccount,
>)
    ensures
        r@ == spec_mark_signer(accs@, signer@),
{
    let mut r: Vec<TransactionAccount> = Vec::new();
    let mut i: usize = 0;
    while i < accs.len()
        invariant
            i <= accs@.len(),
            r@ =~= spec_mark_signer(accs@, signer@).subrange(0, i as int),
        decreases accs@.len() - i,
    {
        let a = accs[i];
        let is_signer = if addr_eq(&a.pubkey, signer) {
            true
        } else {
            a.is_signer
        };
        r.push(TransactionAccount { pubkey: a.pubkey, is_signer, is_writable: a.is_writable });
        i = i + 1;
    }
    proof {
        assert(r@ =~= spec_mark_signer(accs@, signer@));
    }
    r
}

/// Prepare the signed invocation of a stored pending call: derive the
/// signing authority of `sender` under the two-byte chain seed, mark it as a
/// signer in the stored account list, and assemble the instruction and the
/// signing seeds.
pub fn perform_cpi(
    chain_id: u16,
    sender: &[u8; 32],
    transaction: &Transaction,
    program_id: &[u8; 32],
) -> (r: Result<PreparedInvocation, MessengerError>)
    ensures
        r is Ok <==> spec_identity_pda_u16(sender@, chain_id, program_id@) is Some,
        r is Err ==> r == Err::<PreparedInvocation, MessengerError>(MessengerError::InvalidCPI),
        r matches Ok(prep) ==> {
            let p = spec_identity_pda_u16(sender@, chain_id, program_id@).unwrap();
            &&& prep.instruction.program_id@ == transaction.program_id@
            &&& prep.instruction.accounts@ == spec_mark_signer(transaction.accounts@, p.0)
            &&& prep.instruction.data@ == transaction.data@
            &&& prep.signer@ == p.0
            &&& prep.seeds.deep_view() == seq![
                sender@,
                spec_u16_to_be_bytes(chain_id),
                seq![p.1],
            ]
        },
{
    let derived = derive_identity_address_u16(sender, chain_id, program_id);
    match derived {
        None => Err(MessengerError::InvalidCPI),
        Some((signer, bump)) => {
            let accounts = mark_signer_accounts(&transaction.accounts, &signer);
            let instruction = Instruction {
                program_id: transaction.program_id,
                accounts,
                data: clone_bytes(&transaction.data),
            };
            let mut seeds: Vec<Vec<u8>> = Vec::new();
            seeds.push(slice_to_vec(sender.as_slice()));
            seeds.push(u16_to_be_bytes_vec(chain_id));
            let mut bump_seed: Vec<u8> = Vec::new();
            bump_seed.push(bump);
            seeds.push(bump_seed);
            proof {
                assert(seeds.deep_view() =~~= seq![
                    sender@,
                    spec_u16_to_be_bytes(chain_id),
                    seq![bump],
                ]);
            }
            Ok(PreparedInvocation { instruction, signer, seeds })
        },
    }
}

/// Outcome of executing a pending call: the per-sequence status gate first,
/// then the call's own one-time flag, then the availability of the signing
/// authority.
pub open spec fn spec_execute_outcome(
    status_executed: bool,
    did_execute: bool,
    sender: Seq<u8>,
    chain_id: u16,
    program_id: Seq<u8>,
) -> Result<(), MessengerError> {
    if status_executed {
        Err(MessengerError::TransactionAlreadyExecuted)
    } else if did_execute {
        Err(MessengerError::AlreadyExecuted)
    } else if spec_identity_pda_u16(sender, chain_id, program_id) is None {
        Err(MessengerError::InvalidCPI)
    } else {
        Ok(())
    }
}

/// Execute a stored pending call exactly once: refuse a consumed slot or an
/// already-executed call, mark both one-time flags, and hand back the signed
/// invocation. On any rejection nothing changes.
pub fn execute_transaction(
    txn_status: &mut TransactionStatus,
    transaction: &mut Transaction,
    eth_add: &[u8; 32],
    from_chain_id: u16,
    program_id: &[u8; 32],
) -> (r: Result<PreparedInvocation, MessengerError>)
    ensures
        r is Ok <==> spec_execute_outcome(
            old(txn_status).executed,
            old(transaction).did_execute,
            eth_add@,
            from_chain_id,
            program_id@,
        ) is Ok,
        r matches Err(e) ==> Err::<(), MessengerError>(e) == spec_execute_outcome(
            old(txn_status).executed,
            old(transaction).did_execute,
            eth_add@,
            from_chain_id,
            program_id@,
        ),
        r is Err ==> {
            &&& *final(txn_status) == *old(txn_status)
            &&& *final(transaction) == *old(transaction)
        },
        r is Ok ==> final(txn_status).executed && final(transaction).did_execute,
        r is Ok ==> {
            &&& final(transaction).program_id == old(transaction).program_id
            &&& final(transaction).accounts@ == old(transaction).accounts@
            &&& final(transaction).data@ == old(transaction).data@
        },
        r matches Ok(prep) ==> {
            let p = spec_identity_pda_u16(eth_add@, from_chain_id, program_id@).unwrap();
            &&& prep.instruction.program_id@ == old(transaction).program_id@
            &&& prep.instruction.accounts@ == spec_mark_signer(old(transaction).accounts@, p.0)
            &&& prep.instruction.data@ == old(transaction).data@
            &&& prep.signer@ == p.0
            &&& prep.seeds.deep_view() == seq![
                eth_add@,
                spec_u16_to_be_bytes(from_chain_id),
                seq![p.1],
            ]
        },
{
    if txn_status.executed {
        return Err(MessengerError::TransactionAlreadyExecuted);
    }
    if transaction.did_execute {
        return Err(MessengerError::AlreadyExecuted);
    }
    let prepared = perform_cpi(from_chain_id, eth_add, transaction, program_id)?;
    txn_status.executed = true;
    transaction.did_execute = true;
    Ok(prepared)
}

/// Law: a pending call is executed at most once. Once its one-time flag is
/// set, every further execution attempt is rejected whatever per-sequence
/// status record is supplied, and it is rejected as `AlreadyExecuted`
/// whenever the status gate itself passes; rejection holds for all later
/// attempts alike.
pub proof fn lemma_execute_at_most_once(
    status_executed: bool,
    did_execute: bool,
    sender: Seq<u8>,
    chain_id: u16,
    program_id: Seq<u8>,
)
    requires
        did_execute,
    ensures
        spec_execute_outcome(status_executed, did_execute, sender, chain_id, program_id) is Err,
        !status_executed ==> spec_execute_outcome(
            status_executed,
            did_execute,
            sender,
            chain_id,
            program_id,
        ) == Err::<(), MessengerError>(MessengerError::AlreadyExecuted),
{
}

/// Outcome of creating-and-executing a deposit call against the stored
/// record: the one-time gate, the mint, the sender, the sender's derived
/// address, the data blob, the claimed amount, and the signing authority, in
/// that order.
pub open spec fn spec_transaction_deposit_outcome(
    status_executed: bool,
    store: TransactionData,
    accs: Seq<TransactionAccount>,
    data: Seq<u8>,
    chain_id: u16,
    sender: Seq<u8>,
    program_id: Seq<u8>,
) -> Result<(), MessengerError> {
    if status_executed {
        Err(MessengerError::TransactionAlreadyCreated)
    } else if accs[6].pubkey@ != store.token_mint@ {
        Err(MessengerError::MintKeyMismatch)
    } else if sender != store.sender@ {
        Err(MessengerError::PdaSenderMismatch)
    } else if !spec_pda_matches(sender, store.from_chain_id, program_id, accs[1].pubkey@) {
        Err(MessengerError::SenderDerivedKeyMismatch)
    } else if spec_decode_token_amount(data) is Err {
        Err(MessengerError::InvalidDataProvided)
    } else if spec_decode_token_amount(data) != Ok::<u64, MessengerError>(store.amount) {
        Err(MessengerError::AmountMismatch)
    } else if spec_identity_pda_u16(sender, chain_id, program_id) is None {
        Err(MessengerError::InvalidCPI)
    } else {
        Ok(())
    }
}

/// Create and immediately execute a deposit call: cross-validate the
/// supplied accounts and data against the stored record, burn the
/// per-sequence status, store the consumed pending call, and hand back the
/// signed invocation. On any rejection nothing changes.
pub fn transaction_deposit(
    txn_status: &mut TransactionStatus,
    transaction: &mut Transaction,
    data_storage: &TransactionData,
    accs: Vec<TransactionAccount>,
    data: Vec<u8>,
    chain_id: u16,
    sender: &[u8; 32],
    program_id: &[u8; 32],
    zebec_program: &[u8; 32],
) -> (r: Result<PreparedInvocation, MessengerError>)
    requires
        accs@.len() >= 7,
    ensures
        r is Ok <==> spec_transaction_deposit_outcome(
            old(txn_status).executed,
            *data_storage,
            accs@,
            data@,
            chain_id,
            sender@,
            program_id@,
        ) is Ok,
        r matches Err(e) ==> Err::<(), MessengerError>(e) == spec_transaction_deposit_outcome(
            old(txn_status).executed,
            *data_storage,
            accs@,
            data@,
            chain_id,
            sender@,
            program_id@,
        ),
        r is Err ==> {
            &&& *final(txn_status) == *old(txn_status)
            &&& *final(transaction) == *old(transaction)
        },
        r is Ok ==> {
            &&& final(txn_status).executed
            &&& final(transaction).program_id@ == zebec_program@
            &&& final(transaction).accounts@ == accs@
            &&& final(transaction).data@ == data@
            &&& final(transaction).did_execute
        },
        r matches Ok(prep) ==> {
            let p = spec_identity_pda_u16(sender@, chain_id, program_id@).unwrap();
            &&& prep.instruction.program_id@ == zebec_program@
            &&& prep.instruction.accounts@ == spec_mark_signer(accs@, p.0)
            &&& prep.instruction.data@ == data@
            &&& prep.signer@ == p.0
            &&& prep.seeds.deep_view() == seq![
                sender@,
                spec_u16_to_be_bytes(chain_id),
                seq![p.1],
            ]
        },
{
    if txn_status.executed {
        return Err(MessengerError::TransactionAlreadyCreated);
    }
    if !addr_eq(&accs[6].pubkey, &data_storage.token_mint) {
        return Err(MessengerError::MintKeyMismatch);
    }
    if !addr_eq(sender, &data_storage.sender) {
        return Err(MessengerError::PdaSenderMismatch);
    }
    if !pda_matches(sender, data_storage.from_chain_id, program_id, &accs[1].pubkey) {
        return Err(MessengerError::SenderDerivedKeyMismatch);
    }
    let decode_data = match decode_token_amount(&data) {
        Err(_) => {
            return Err(MessengerError::InvalidDataProvided);
        },
        Ok(t) => t,
    };
    if decode_data.amount != data_storage.amount {
        return Err(MessengerError::AmountMismatch);
    }
    let tx_new = Transaction {
        program_id: *zebec_program,
        accounts: accs,
        data,
        did_execute: true,
    };
    let prepared = perform_cpi(chain_id, sender, &tx_new, program_id)?;
    txn_status.executed = true;
    *transaction = tx_new;
    Ok(prepared)
}

/// Outcome of creating a pending stream-create call: every claimed field
/// must equal the stored record, each mismatch with its own error.
pub open spec fn spec_create_transaction_stream_outcome(
    status_executed: bool,
    store: TransactionData,
    accs: Seq<TransactionAccount>,
    data: Seq<u8>,
    sender: Seq<u8>,
    program_id: Seq<u8>,
) -> Result<(), MessengerError> {
    if status_executed {
        Err(MessengerError::TransactionAlreadyCreated)
    } else if accs[9].pubkey@ != store.token_mint@ {
        Err(MessengerError::MintKeyMismatch)
    } else if sender != store.sender@ {
        Err(MessengerError::PdaSenderMismatch)
    } else if !spec_pda_matches(sender, store.from_chain_id, program_id, accs[5].pubkey@) {
        Err(MessengerError::SenderDerivedKeyMismatch)
    } else if !spec_pda_matches(store.receiver@, store.from_chain_id, program_id, accs[6].pubkey@) {
        Err(MessengerError::ReceiverDerivedKeyMismatch)
    } else if spec_decode_stream_args(data) is Err {
        Err(MessengerError::InvalidDataProvided)
    } else {
        let args = spec_decode_stream_args(data).unwrap();
        if args.amount != store.amount {
            Err(MessengerError::AmountMismatch)
        } else if args.start_time != store.start_time {
            Err(MessengerError::StartTimeMismatch)
        } else if args.end_time != store.end_time {
            Err(MessengerError::EndTimeMismatch)
        } else if args.can_cancel != store.can_cancel {
            Err(MessengerError::CanCancelMismatch)
        } else if args.can_update != store.can_update {
            Err(MessengerError::CanUpdateMismatch)
        } else {
            Ok(())
        }
    }
}

/// Create (but do not yet execute) the pending call of a stream-create
/// operation: cross-validate the claimed accounts and arguments against the
/// stored record and persist the unexecuted call. On any rejection nothing
/// changes.
pub fn create_transaction_stream(
    txn_status: &TransactionStatus,
    transaction: &mut Transaction,
    data_storage: &TransactionData,
    accs: Vec<TransactionAccount>,
    data: Vec<u8>,
    sender: &[u8; 32],
    program_id: &[u8; 32],
    zebec_program: &[u8; 32],
) -> (r: Result<(), MessengerError>)
    requires
        accs@.len() >= 10,
    ensures
        r == spec_create_transaction_stream_outcome(
            txn_status.executed,
            *data_storage,
            accs@,
            data@,
            sender@,
            program_id@,
        ),
        r is Err ==> *final(transaction) == *old(transaction),
        r is Ok ==> {
            &&& final(transaction).program_id@ == zebec_program@
            &&& final(transaction).accounts@ == accs@
            &&& final(transaction).data@ == data@
            &&& !final(transaction).did_execute
        },
{
    if txn_status.executed {
        return Err(MessengerError::TransactionAlreadyCreated);
    }
    if !addr_eq(&accs[9].pubkey, &data_storage.token_mint) {
        return Err(MessengerError::MintKeyMismatch);
    }
    if !addr_eq(sender, &data_storage.sender) {
        return Err(MessengerError::PdaSenderMismatch);
    }
    if !pda_matches(sender, data_storage.from_chain_id, program_id, &accs[5].pubkey) {
        return Err(MessengerError::SenderDerivedKeyMismatch);
    }
    if !pda_matches(&data_storage.receiver, data_storage.from_chain_id, program_id, &accs[6].pubkey)
    {
        return Err(MessengerError::ReceiverDerivedKeyMismatch);
    }
    let args = match decode_stream_args(&data) {
        Err(_) => {
            return Err(MessengerError::InvalidDataProvided);
        },
        Ok(a) => a,
    };
    if args.amount != data_storage.amount {
        return Err(MessengerError::AmountMismatch);
    }
    if args.start_time != data_storage.start_time {
        return Err(MessengerError::StartTimeMismatch);
    }
    if args.end_time != data_storage.end_time {
        return Err(MessengerError::EndTimeMismatch);
    }
    if args.can_cancel != data_storage.can_cancel {
        return Err(MessengerError::CanCancelMismatch);
    }
    if args.can_update != data_storage.can_update {
        return Err(MessengerError::CanUpdateMismatch);
    }
    *transaction = Transaction {
        program_id: *zebec_program,
        accounts: accs,
        data,
        did_execute: false,
    };
    Ok(())
}

/// Outcome of creating-and-executing a stream-update call.
pub open spec fn spec_transaction_stream_update_outcome(
    status_executed: bool,
    store: TransactionData,
    accs: Seq<TransactionAccount>,
    data: Seq<u8>,
    chain_id: u16,
    sender: Seq<u8>,
    program_id: Seq<u8>,
) -> Result<(), MessengerError> {
    if status_executed {
        Err(MessengerError::TransactionAlreadyCreated)
    } else if accs[4].pubkey@ != store.token_mint@ {
        Err(MessengerError::MintKeyMismatch)
    } else if accs[0].pubkey@ != store.data_account@ {
        Err(MessengerError::DataAccountMismatch)
    } else if sender != store.sender@ {
        Err(MessengerError::PdaSenderMismatch)
    } else if !spec_pda_matches(sender, store.from_chain_id, program_id, accs[2].pubkey@) {
        Err(MessengerError::SenderDerivedKeyMismatch)
    } else if !spec_pda_matches(store.receiver@, store.from_chain_id, program_id, accs[3].pubkey@) {
        Err(MessengerError::ReceiverDerivedKeyMismatch)
    } else if spec_decode_stream_update_args(data) is Err {
        Err(MessengerError::InvalidDataProvided)
    } else {
        let args = spec_decode_stream_update_args(data).unwrap();
        if args.amount != store.amount {
            Err(MessengerError::AmountMismatch)
        } else if args.start_time != store.start_time {
            Err(MessengerError::StartTimeMismatch)
        } else if args.end_time != store.end_time {
            Err(MessengerError::EndTimeMismatch)
        } else if spec_identity_pda_u16(sender, chain_id, program_id) is None {
            Err(MessengerError::InvalidCPI)
        } else {
            Ok(())
        }
    }
}

/// Create and immediately execute a stream-update call. On any rejection
/// nothing changes.
pub fn transaction_stream_update(
    txn_status: &mut TransactionStatus,
    transaction: &mut Transaction,
    data_storage: &TransactionData,
    accs: Vec<TransactionAccount>,
    data: Vec<u8>,
    chain_id: u16,
    sender: &[u8; 32],
    program_id: &[u8; 32],
    zebec_program: &[u8; 32],
) -> (r: Result<PreparedInvocation, MessengerError>)
    requires
        accs@.len() >= 5,
    ensures
        r is Ok <==> spec_transaction_stream_update_outcome(
            old(txn_status).executed,
            *data_storage,
            accs@,
            data@,
            chain_id,
            sender@,
            program_id@,
        ) is Ok,
        r matches Err(e) ==> Err::<(), MessengerError>(e)
            == spec_transaction_stream_update_outcome(
            old(txn_status).executed,
            *data_storage,
            accs@,
            data@,
            chain_id,
            sender@,
            program_id@,
        ),
        r is Err ==> {
            &&& *final(txn_status) == *old(txn_status)
            &&& *final(transaction) == *old(transaction)
        },
        r is Ok ==> {
            &&& final(txn_status).executed
            &&& final(transaction).program_id@ == zebec_program@
            &&& final(transaction).accounts@ == accs@
            &&& final(transaction).data@ == data@
            &&& final(transaction).did_execute
        },
        r matches Ok(prep) ==> {
            let p = spec_identity_pda_u16(sender@, chain_id, program_id@).unwrap();
            &&& prep.instruction.program_id@ == zebec_program@
            &&& prep.instruction.accounts@ == spec_mark_signer(accs@, p.0)
            &&& prep.instruction.data@ == data@
            &&& prep.signer@ == p.0
            &&& prep.seeds.deep_view() == seq![
                sender@,
                spec_u16_to_be_bytes(chain_id),
                seq![p.1],
            ]
        },
{
    if txn_status.executed {
        return Err(MessengerError::TransactionAlreadyCreated);
    }
    if !addr_eq(&accs[4].pubkey, &data_storage.token_mint) {
        return Err(MessengerError::MintKeyMismatch);
    }
    if !addr_eq(&accs[0].pubkey, &data_storage.data_account) {
        return Err(MessengerError::DataAccountMismatch);
    }
    if !addr_eq(sender, &data_storage.sender) {
        return Err(MessengerError::PdaSenderMismatch);
    }
    if !pda_matches(sender, data_storage.from_chain_id, program_id, &accs[2].pubkey) {
        return Err(MessengerError::SenderDerivedKeyMismatch);
    }
    if !pda_matches(&data_storage.receiver, data_storage.from_chain_id, program_id, &accs[3].pubkey)
    {
        return Err(MessengerError::ReceiverDerivedKeyMismatch);
    }
    let args = match decode_stream_update_args(&data) {
        Err(_) => {
            return Err(MessengerError::InvalidDataProvided);
        },
        Ok(a) => a,
    };
    if args.amount != data_storage.amount {
        return Err(MessengerError::AmountMismatch);
    }
    if args.start_time != data_storage.start_time {
        return Err(MessengerError::StartTimeMismatch);
    }
    if args.end_time != data_storage.end_time {
        return Err(MessengerError::EndTimeMismatch);
    }
    let tx_new = Transaction {
        program_id: *zebec_program,
        accounts: accs,
        data,
        did_execute: true,
    };
    let prepared = perform_cpi(chain_id, sender, &tx_new, program_id)?;
    txn_status.executed = true;
    *transaction = tx_new;
    Ok(prepared)
}

/// Outcome of creating-and-executing a pause/resume call.
pub open spec fn spec_transaction_pause_resume_outcome(
    status_executed: bool,
    store: TransactionData,
    accs: Seq<TransactionAccount>,
    chain_id: u16,
    sender: Seq<u8>,
    program_id: Seq<u8>,
) -> Result<(), MessengerError> {
    if status_executed {
        Err(MessengerError::TransactionAlreadyCreated)
    } else if accs[2].pubkey@ != store.data_account@ {
        Err(MessengerError::DataAccountMismatch)
    } else if sender != store.sender@ {
        Err(MessengerError::PdaSenderMismatch)
    } else if !spec_pda_matches(sender, store.from_chain_id, program_id, accs[0].pubkey@) {
        Err(MessengerError::SenderDerivedKeyMismatch)
    } else if !spec_pda_matches(store.receiver@, store.from_chain_id, program_id, accs[1].pubkey@) {
        Err(MessengerError::ReceiverDerivedKeyMismatch)
    } else if spec_identity_pda_u16(sender, chain_id, program_id) is None {
        Err(MessengerError::InvalidCPI)
    } else {
        Ok(())
    }
}

/// Create and immediately execute a pause/resume call. On any rejection
/// nothing changes.
pub fn transaction_pause_resume(
    txn_status: &mut TransactionStatus,
    transaction: &mut Transaction,
    data_storage: &TransactionData,
    accs: Vec<TransactionAccount>,
    data: Vec<u8>,
    chain_id: u16,
    sender: &[u8; 32],
    program_id: &[u8; 32],
    zebec_program: &[u8; 32],
) -> (r: Result<PreparedInvocation, MessengerError>)
    requires
        accs@.len() >= 3,
    ensures
        r is Ok <==> spec_transaction_pause_resume_outcome(
            old(txn_status).executed,
            *data_storage,
            accs@,
            chain_id,
            sender@,
            program_id@,
        ) is Ok,
        r matches Err(e) ==> Err::<(), MessengerError>(e)
            == spec_transaction_pause_resume_outcome(
            old(txn_status).executed,
            *data_storage,
            accs@,
            chain_id,
            sender@,
            program_id@,
        ),
        r is Err ==> {
            &&& *final(txn_status) == *old(txn_status)
            &&& *final(transaction) == *old(transaction)
        },
        r is Ok ==> {
            &&& final(txn_status).executed
            &&& final(transaction).program_id@ == zebec_program@
            &&& final(transaction).accounts@ == accs@
            &&& final(transaction).data@ == data@
            &&& final(transaction).did_execute
        },
        r matches Ok(prep) ==> {
            let p = spec_identity_pda_u16(sender@, chain_id, program_id@).unwrap();
            &&& prep.instruction.program_id@ == zebec_program@
            &&& prep.instruction.accounts@ == spec_mark_signer(accs@, p.0)
            &&& prep.instruction.data@ == data@
            &&& prep.signer@ == p.0
            &&& prep.seeds.deep_view() == seq![
                sender@,
                spec_u16_to_be_bytes(chain_id),
                seq![p.1],
            ]
        },
{
    if txn_status.executed {
        return Err(MessengerError::TransactionAlreadyCreated);
    }
    if !addr_eq(&accs[2].pubkey, &data_storage.data_account) {
        return Err(MessengerError::DataAccountMismatch);
    }
    if !addr_eq(sender, &data_storage.sender) {
        return Err(MessengerError::PdaSenderMismatch);
    }
    if !pda_matches(sender, data_storage.from_chain_id, program_id, &accs[0].pubkey) {
        return Err(MessengerError::SenderDerivedKeyMismatch);
    }
    if !pda_matches(&data_storage.receiver, data_storage.from_chain_id, program_id, &accs[1].pubkey)
    {
        return Err(MessengerError::ReceiverDerivedKeyMismatch);
    }
    let tx_new = Transaction {
        program_id: *zebec_program,
        accounts: accs,
        data,
        did_execute: true,
    };
    let prepared = perform_cpi(chain_id, sender, &tx_new, program_id)?;
    txn_status.executed = true;
    *transaction = tx_new;
    Ok(prepared)
}

/// Outcome of creating a receiver-side withdraw call: here the supplied
/// identity must equal the stored receiver, and the sender-side derived
/// address is computed from the stored sender.
pub open spec fn spec_create_transaction_receiver_withdraw_outcome(
    status_executed: bool,
    store: TransactionData,
    accs: Seq<TransactionAccount>,
    sender: Seq<u8>,
    program_id: Seq<u8>,
) -> Result<(), MessengerError> {
    if status_executed {
        Err(MessengerError::TransactionAlreadyCreated)
    } else if accs[12].pubkey@ != store.token_mint@ {
        Err(MessengerError::MintKeyMismatch)
    } else if accs[6].pubkey@ != store.data_account@ {
        Err(MessengerError::DataAccountMismatch)
    } else if sender != store.receiver@ {
        Err(MessengerError::PdaReceiverMismatch)
    } else if !spec_pda_matches(store.sender@, store.from_chain_id, program_id, accs[2].pubkey@) {
        Err(MessengerError::SenderDerivedKeyMismatch)
    } else if !spec_pda_matches(store.receiver@, store.from_chain_id, program_id, accs[1].pubkey@) {
        Err(MessengerError::ReceiverDerivedKeyMismatch)
    } else {
        Ok(())
    }
}

/// Create (but do not yet execute) the pending call of a receiver-side
/// stream withdrawal. On any rejection nothing changes.
pub fn create_transaction_receiver_withdraw(
    txn_status: &TransactionStatus,
    transaction: &mut Transaction,
    data_storage: &TransactionData,
    accs: Vec<TransactionAccount>,
    data: Vec<u8>,
    sender: &[u8; 32],
    program_id: &[u8; 32],
    zebec_program: &[u8; 32],
) -> (r: Result<(), MessengerError>)
    requires
        accs@.len() >= 13,
    ensures
        r == spec_create_transaction_receiver_withdraw_outcome(
            txn_status.executed,
            *data_storage,
            accs@,
            sender@,
            program_id@,
        ),
        r is Err ==> *final(transaction) == *old(transaction),
        r is Ok ==> {
            &&& final(transaction).program_id@ == zebec_program@
            &&& final(transaction).accounts@ == accs@
            &&& final(transaction).data@ == data@
            &&& !final(transaction).did_execute
        },
{
    if txn_status.executed {
        return Err(MessengerError::TransactionAlreadyCreated);
    }
    if !addr_eq(&accs[12].pubkey, &data_storage.token_mint) {
        return Err(MessengerError::MintKeyMismatch);
    }
    if !addr_eq(&accs[6].pubkey, &data_storage.data_account) {
        return Err(MessengerError::DataAccountMismatch);
    }
    if !addr_eq(sender, &data_storage.receiver) {
        return Err(MessengerError::PdaReceiverMismatch);
    }
    if !pda_matches(&data_storage.sender, data_storage.from_chain_id, program_id, &accs[2].pubkey) {
        return Err(MessengerError::SenderDerivedKeyMismatch);
    }
    if !pda_matches(&data_storage.receiver, data_storage.from_chain_id, program_id, &accs[1].pubkey)
    {
        return Err(MessengerError::ReceiverDerivedKeyMismatch);
    }
    *transaction = Transaction {
        program_id: *zebec_program,
        accounts: accs,
        data,
        did_execute: false,
    };
    Ok(())
}

/// Outcome of creating a cancel-stream call.
pub open spec fn spec_create_transaction_cancel_outcome(
    status_executed: bool,
    store: TransactionData,
    accs: Seq<TransactionAccount>,
    sender: Seq<u8>,
    program_id: Seq<u8>,
) -> Result<(), MessengerError> {
    if status_executed {
        Err(MessengerError::TransactionAlreadyCreated)
    } else if accs[12].pubkey@ != store.token_mint@ {
        Err(MessengerError::MintKeyMismatch)
    } else if accs[6].pubkey@ != store.data_account@ {
        Err(MessengerError::DataAccountMismatch)
    } else if sender != store.sender@ {
        Err(MessengerError::PdaSenderMismatch)
    } else if !spec_pda_matches(sender, store.from_chain_id, program_id, accs[2].pubkey@) {
        Err(MessengerError::SenderDerivedKeyMismatch)
    } else if !spec_pda_matches(store.receiver@, store.from_chain_id, program_id, accs[1].pubkey@) {
        Err(MessengerError::ReceiverDerivedKeyMismatch)
    } else {
        Ok(())
    }
}

/// Create (but do not yet execute) the pending call of a cancel-stream
/// operation. On any rejection nothing changes.
pub fn create_transaction_cancel(
    txn_status: &TransactionStatus,
    transaction: &mut Transaction,
    data_storage: &TransactionData,
    accs: Vec<TransactionAccount>,
    data: Vec<u8>,
    sender: &[u8; 32],
    program_id: &[u8; 32],
    zebec_program: &[u8; 32],
) -> (r: Result<(), MessengerError>)
    requires
        accs@.len() >= 13,
    ensures
        r == spec_create_transaction_cancel_outcome(
            txn_status.executed,
            *data_storage,
            accs@,
            sender@,
            program_id@,
        ),
        r is Err ==> *final(transaction) == *old(transaction),
        r is Ok ==> {
            &&& final(transaction).program_id@ == zebec_program@
            &&& final(transaction).accounts@ == accs@
            &&& final(transaction).data@ == data@
            &&& !final(transaction).did_execute
        },
{
    if txn_status.executed {
        return Err(MessengerError::TransactionAlreadyCreated);
    }
    if !addr_eq(&accs[12].pubkey, &data_storage.token_mint) {
        return Err(MessengerError::MintKeyMismatch);
    }
    if !addr_eq(&accs[6].pubkey, &data_storage.data_account) {
        return Err(MessengerError::DataAccountMismatch);
    }
    if !addr_eq(sender, &data_storage.sender) {
        return Err(MessengerError::PdaSenderMismatch);
    }
    if !pda_matches(sender, data_storage.from_chain_id, program_id, &accs[2].pubkey) {
        return Err(MessengerError::SenderDerivedKeyMismatch);
    }
    if !pda_matches(&data_storage.receiver, data_storage.from_chain_id, program_id, &accs[1].pubkey)
    {
        return Err(MessengerError::ReceiverDerivedKeyMismatch);
    }
    *transaction = Transaction {
        program_id: *zebec_program,
        accounts: accs,
        data,
        did_execute: false,
    };
    Ok(())
}

/// Outcome of creating a sender-side withdraw call.
pub open spec fn spec_create_transaction_sender_withdraw_outcome(
    status_executed: bool,
    store: TransactionData,
    accs: Seq<TransactionAccount>,
    data: Seq<u8>,
    sender: Seq<u8>,
    program_id: Seq<u8>,
) -> Result<(), MessengerError> {
    if status_executed {
        Err(MessengerError::TransactionAlreadyCreated)
    } else if accs[7].pubkey@ != store.token_mint@ {
        Err(MessengerError::MintKeyMismatch)
    } else if sender != store.sender@ {
        Err(MessengerError::PdaSenderMismatch)
    } else if !spec_pda_matches(sender, store.from_chain_id, program_id, accs[2].pubkey@) {
        Err(MessengerError::SenderDerivedKeyMismatch)
    } else if spec_decode_token_amount(data) is Err {
        Err(MessengerError::InvalidDataProvided)
    } else if spec_decode_token_amount(data) != Ok::<u64, MessengerError>(store.amount) {
        Err(MessengerError::AmountMismatch)
    } else {
        Ok(())
    }
}

/// Create (but do not yet execute) the pending call of a sender-side
/// withdrawal of deposited tokens. On any rejection nothing changes.
pub fn create_transaction_sender_withdraw(
    txn_status: &TransactionStatus,
    transaction: &mut Transaction,
    data_storage: &TransactionData,
    accs: Vec<TransactionAccount>,
    data: Vec<u8>,
    sender: &[u8; 32],
    program_id: &[u8; 32],
    zebec_program: &[u8; 32],
) -> (r: Result<(), MessengerError>)
    requires
        accs@.len() >= 8,
    ensures
        r == spec_create_transaction_sender_withdraw_outcome(
            txn_status.executed,
            *data_storage,
            accs@,
            data@,
            sender@,
            program_id@,
        ),
        r is Err ==> *final(transaction) == *old(transaction),
        r is Ok ==> {
            &&& final(transaction).program_id@ == zebec_program@
            &&& final(transaction).accounts@ == accs@
            &&& final(transaction).data@ == data@
            &&& !final(transaction).did_execute
        },
{
    if txn_status.executed {
        return Err(MessengerError::TransactionAlreadyCreated);
    }
    if !addr_eq(&accs[7].pubkey, &data_storage.token_mint) {
        return Err(MessengerError::MintKeyMismatch);
    }
    if !addr_eq(sender, &data_storage.sender) {
        return Err(MessengerError::PdaSenderMismatch);
    }
    if !pda_matches(sender, data_storage.from_chain_id, program_id, &accs[2].pubkey) {
        return Err(MessengerError::SenderDerivedKeyMismatch);
    }
    let decode_data = match decode_token_amount(&data) {
        Err(_) => {
            return Err(MessengerError::InvalidDataProvided);
        },
        Ok(t) => t,
    };
    if decode_data.amount != data_storage.amount {
        return Err(MessengerError::AmountMismatch);
    }
    *transaction = Transaction {
        program_id: *zebec_program,
        accounts: accs,
        data,
        did_execute: false,
    };
    Ok(())
}

/// Outcome of creating an instant-transfer call.
pub open spec fn spec_create_transaction_instant_transfer_outcome(
    status_executed: bool,
    store: TransactionData,
    accs: Seq<TransactionAccount>,
    data: Seq<u8>,
    sender: Seq<u8>,
    program_id: Seq<u8>,
) -> Result<(), MessengerError> {
    if status_executed {
        Err(MessengerError::TransactionAlreadyCreated)
    } else if accs[8].pubkey@ != store.token_mint@ {
        Err(MessengerError::MintKeyMismatch)
    } else if sender != store.sender@ {
        Err(MessengerError::PdaSenderMismatch)
    } else if !spec_pda_matches(sender, store.from_chain_id, program_id, accs[2].pubkey@) {
        Err(MessengerError::SenderDerivedKeyMismatch)
    } else if !spec_pda_matches(store.receiver@, store.from_chain_id, program_id, accs[1].pubkey@) {
        Err(MessengerError::ReceiverDerivedKeyMismatch)
    } else if spec_decode_token_amount(data) is Err {
        Err(MessengerError::InvalidDataProvided)
    } else if spec_decode_token_amount(data) != Ok::<u64, MessengerError>(store.amount) {
        Err(MessengerError::AmountMismatch)
    } else {
        Ok(())
    }
}

/// Create (but do not yet execute) the pending call of an instant transfer.
/// On any rejection nothing changes.
pub fn create_transaction_instant_transfer(
    txn_status: &TransactionStatus,
    transaction: &mut Transaction,
    data_storage: &TransactionData,
    accs: Vec<TransactionAccount>,
    data: Vec<u8>,
    sender: &[u8; 32],
    program_id: &[u8; 32],
    zebec_program: &[u8; 32],
) -> (r: Result<(), MessengerError>)
    requires
        accs@.len() >= 9,
    ensures
        r == spec_create_transaction_instant_transfer_outcome(
            txn_status.executed,
            *data_storage,
            accs@,
            data@,
            sender@,
            program_id@,
        ),
        r is Err ==> *final(transaction) == *old(transaction),
        r is Ok ==> {
            &&& final(transaction).program_id@ == zebec_program@
            &&& final(transaction).accounts@ == accs@
            &&& final(transaction).data@ == data@
            &&& !final(transaction).did_execute
        },
{
    if txn_status.executed {
        return Err(MessengerError::TransactionAlreadyCreated);
    }
    if !addr_eq(&accs[8].pubkey, &data_storage.token_mint) {
        return Err(MessengerError::MintKeyMismatch);
    }
    if !addr_eq(sender, &data_storage.sender) {
        return Err(MessengerError::PdaSenderMismatch);
    }
    if !pda_matches(sender, data_storage.from_chain_id, program_id, &accs[2].pubkey) {
        return Err(MessengerError::SenderDerivedKeyMismatch);
    }
    if !pda_matches(&data_storage.receiver, data_storage.from_chain_id, program_id, &accs[1].pubkey)
    {
        return Err(MessengerError::ReceiverDerivedKeyMismatch);
    }
    let decode_data = match decode_token_amount(&data) {
        Err(_) => {
            return Err(MessengerError::InvalidDataProvided);
        },
        Ok(t) => t,
    };
    if decode_data.amount != data_storage.amount {
        return Err(MessengerError::AmountMismatch);
    }
    *transaction = Transaction {
        program_id: *zebec_program,
        accounts: accs,
        data,
        did_execute: false,
    };
    Ok(())
}

} // verus!
