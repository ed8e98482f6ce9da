use vstd::prelude::*;
use crate::account::RejectReason;

verus! {

/// What is wrong with a message or its witnesses.
#[derive(Clone, Copy, Debug, PartialEq, Eq)]
pub enum ValidationIssue {
    /// The message names no account.
    EmptyAccountList,
    /// The witnesses do not match the message's signers one for one.
    MissingWitness,
}

/// Failures of the protocol, each with its cause.
#[derive(Clone, Copy, Debug, PartialEq, Eq)]
pub enum LezardError {
    /// The bytecode could not be read from its source.
    Io,
    /// The bytecode is not a valid program binary.
    Parse,
    /// A message or witness set is malformed.
    Validation(ValidationIssue),
    /// A call to the engine failed at the transport layer.
    Network,
    /// No block progress was seen in time; carries the height it stalled at.
    Timeout { stalled_at: u64 },
    /// The engine refused the transaction.
    Rejected(RejectReason),
}

} // verus!
