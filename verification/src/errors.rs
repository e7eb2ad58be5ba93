//! Error kinds reported by the message relay.
//!
//! Every failure aborts the whole call: callers treat any error as a signal
//! to roll back the transaction, so no error carries recovery data.
use vstd::prelude::*;

verus! {

/// The reasons a call into the relay can be rejected.
#[derive(Clone, Copy, Debug, PartialEq, Eq, Structural)]
pub enum MessengerError {
    /// The attested message account is not at the address derived from its hash.
    VAAKeyMismatch,
    /// The message's declared origin does not match the registered emitter.
    VAAEmitterMismatch,
    /// The decoded sender wallet differs from the supplied sender.
    InvalidSenderWallet,
    /// The pending call was already executed once.
    AlreadyExecuted,
    /// The downstream invocation could not be prepared or failed.
    InvalidCPI,
    /// The caller is not the configured owner.
    InvalidCaller,
    /// A checked counter or nonce increment wrapped around.
    Overflow,
    /// The payload is malformed or its opcode is unknown.
    InvalidPayload,
    /// A registered emitter address has the wrong length.
    InvalidEmitterAddress,
    /// The declared count differs from the post-increment sequence count.
    InvalidCount,
    /// The supplied token mint differs from the stored one.
    MintKeyMismatch,
    /// The supplied sender differs from the stored sender.
    PdaSenderMismatch,
    /// The supplied receiver differs from the stored receiver.
    PdaReceiverMismatch,
    /// The supplied sender account is not the derived sender address.
    SenderDerivedKeyMismatch,
    /// The supplied receiver account is not the derived receiver address.
    ReceiverDerivedKeyMismatch,
    /// The supplied amount differs from the stored amount.
    AmountMismatch,
    /// The supplied start time differs from the stored one.
    StartTimeMismatch,
    /// The supplied end time differs from the stored one.
    EndTimeMismatch,
    /// The supplied cancel permission differs from the stored one.
    CanCancelMismatch,
    /// The supplied update permission differs from the stored one.
    CanUpdateMismatch,
    /// The supplied stream data account differs from the stored one.
    DataAccountMismatch,
    /// The pending-call slot was already consumed.
    TransactionAlreadyCreated,
    /// The per-sequence status already marks this slot executed.
    TransactionAlreadyExecuted,
    /// The payload's embedded target chain id is not the accepted one.
    InvalidToChainId,
    /// The supplied derived account is not the expected one.
    InvalidPDAAccount,
    /// The caller-supplied instruction data blob is malformed.
    InvalidDataProvided,
}

} // verus!
