use vstd::prelude::*;
use crate::error::{LezardError, ValidationIssue};
use crate::ids::{AccountId, ProgramId};

verus! {

/// What a public transaction asks of the engine: the program to run, the
/// accounts it reads or writes, the accounts that sign, and the serialized
/// instruction.
#[derive(Clone, Debug, PartialEq, Eq)]
pub struct Message {
    pub program_id: ProgramId,
    pub account_ids: Vec<AccountId>,
    pub signer_ids: Vec<AccountId>,
    pub instruction_data: Vec<u8>,
}

/// Proof of authorization by one signer.
#[derive(Clone, Debug, PartialEq, Eq)]
pub struct Witness {
    pub signer: AccountId,
    pub signature: Vec<u8>,
}

/// The witnesses of a message, one per signer, in the signers' order.
#[derive(Clone, Debug, PartialEq, Eq)]
pub struct WitnessSet {
    pub witnesses: Vec<Witness>,
}

/// The unit submitted for execution.
#[derive(Clone, Debug, PartialEq, Eq)]
pub struct PublicTransaction {
    pub message: Message,
    pub witness_set: WitnessSet,
}

/// A deployment: the raw program bytecode.
#[derive(Clone, Debug, PartialEq, Eq)]
pub struct ProgramDeploymentTransaction {
    pub bytecode: Vec<u8>,
}

/// Whether `witnesses` holds exactly one witness per signer, in order.
pub open spec fn witnesses_match(signers: Seq<AccountId>, witnesses: Seq<Witness>) -> bool {
    witnesses.len() == signers.len() && forall|i: int|
        0 <= i < signers.len() ==> #[trigger] witnesses[i].signer == signers[i]
}

/// Whether `witnesses` holds exactly one witness per signer, in order.
pub fn witnesses_cover(signers: &Vec<AccountId>, witnesses: &Vec<Witness>) -> (r: bool)
    ensures
        r == witnesses_match(signers@, witnesses@),
{
    if witnesses.len() != signers.len() {
        return false;
    }
    let mut i: usize = 0;
    while i < witnesses.len()
        invariant
            witnesses@.len() == signers@.len(),
            i <= witnesses@.len(),
            forall|j: int| 0 <= j < i ==> #[trigger] witnesses@[j].signer == signers@[j],
        decreases witnesses@.len() - i,
    {
        if !witnesses[i].signer.same_as(&signers[i]) {
            return false;
        }
        i = i + 1;
    }
    true
}

impl Message {
    /// Builds a message; a message must name at least one account.
    pub fn try_new(
        program_id: ProgramId,
        account_ids: Vec<AccountId>,
        signer_ids: Vec<AccountId>,
        instruction_data: Vec<u8>,
    ) -> (r: Result<Message, LezardError>)
        ensures
            r is Ok <==> account_ids@.len() > 0,
            account_ids@.len() == 0 <==> r == Err::<Message, LezardError>(
                LezardError::Validation(ValidationIssue::EmptyAccountList),
            ),
            r matches Ok(m) ==> (m.program_id == program_id && m.account_ids@ == account_ids@
                && m.signer_ids@ == signer_ids@ && m.instruction_data@ == instruction_data@),
    {
        if account_ids.len() == 0 {
            return Err(LezardError::Validation(ValidationIssue::EmptyAccountList));
        }
        Ok(Message { program_id, account_ids, signer_ids, instruction_data })
    }
}

impl WitnessSet {
    /// The witness set of a message without signers.
    pub fn unsigned() -> (r: WitnessSet)
        ensures
            r.witnesses@.len() == 0,
    {
        WitnessSet { witnesses: Vec::new() }
    }

    /// Attaches `witnesses` to `message`: there must be one per signer, in the
    /// signers' order.
    pub fn for_message(message: &Message, witnesses: Vec<Witness>) -> (r: Result<
        WitnessSet,
        LezardError,
    >)
        ensures
            witnesses_match(message.signer_ids@, witnesses@) ==> (r matches Ok(w)
                && w.witnesses@ == witnesses@),
            !witnesses_match(message.signer_ids@, witnesses@) ==> r == Err::<
                WitnessSet,
                LezardError,
            >(LezardError::Validation(ValidationIssue::MissingWitness)),
    {
        if !witnesses_cover(&message.signer_ids, &witnesses) {
            return Err(LezardError::Validation(ValidationIssue::MissingWitness));
        }
        Ok(WitnessSet { witnesses })
    }
}

impl PublicTransaction {
    pub fn new(message: Message, witness_set: WitnessSet) -> (r: PublicTransaction)
        ensures
            r.message == message,
            r.witness_set == witness_set,
    {
        PublicTransaction { message, witness_set }
    }

    /// Whether the transaction names an account and carries one witness per signer.
    pub open spec fn well_formed(&self) -> bool {
        self.message.account_ids@.len() > 0 && witnesses_match(
            self.message.signer_ids@,
            self.witness_set.witnesses@,
        )
    }
}

impl ProgramDeploymentTransaction {
    pub fn new(bytecode: Vec<u8>) -> (r: ProgramDeploymentTransaction)
        ensures
            r.bytecode == bytecode,
    {
        ProgramDeploymentTransaction { bytecode }
    }
}

/// Builds the transaction that invokes `program_id` on `account_ids` with
/// `instruction_data` and no signers.
pub fn build_unsigned_invocation(
    program_id: ProgramId,
    account_ids: Vec<AccountId>,
    instruction_data: Vec<u8>,
) -> (r: Result<PublicTransaction, LezardError>)
    ensures
        r is Ok <==> account_ids@.len() > 0,
        account_ids@.len() == 0 <==> r == Err::<PublicTransaction, LezardError>(
            LezardError::Validation(ValidationIssue::EmptyAccountList),
        ),
        r matches Ok(tx) ==> (tx.well_formed() && tx.message.program_id == program_id
            && tx.message.account_ids@ == account_ids@ && tx.message.signer_ids@.len() == 0
            && tx.message.instruction_data@ == instruction_data@
            && tx.witness_set.witnesses@.len() == 0),
{
    let message = match Message::try_new(program_id, account_ids, Vec::new(), instruction_data) {
        Ok(m) => m,
        Err(e) => return Err(e),
    };
    let witness_set = match WitnessSet::for_message(&message, Vec::new()) {
        Ok(w) => w,
        Err(e) => return Err(e),
    };
    Ok(PublicTransaction::new(message, witness_set))
}

} // verus!
