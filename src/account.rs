use vstd::prelude::*;
use crate::ids::{default_program_id, ProgramId};

verus! {

/// Largest number of data bytes an account may hold (100 KiB).
pub const ACCOUNT_DATA_MAX_LEN: usize = 102400;

/// Snapshot of an account: its owning program and its data bytes.
#[derive(Clone, Debug, PartialEq, Eq)]
pub struct Account {
    pub program_owner: ProgramId,
    pub data: Vec<u8>,
}

/// Mathematical value of an account.
pub struct AccountState {
    pub owner: ProgramId,
    pub data: Seq<u8>,
}

impl View for Account {
    type V = AccountState;

    open spec fn view(&self) -> AccountState {
        AccountState { owner: self.program_owner, data: self.data@ }
    }
}

/// The state every account reads as before any program touched it.
pub open spec fn default_account_state() -> AccountState {
    AccountState { owner: default_program_id(), data: Seq::empty() }
}

/// Who may mutate an account.
#[derive(Clone, Copy, Debug, PartialEq, Eq)]
pub enum Ownership {
    Unclaimed,
    ClaimedBy(ProgramId),
}

pub open spec fn ownership_of(owner: ProgramId) -> Ownership {
    if owner == default_program_id() {
        Ownership::Unclaimed
    } else {
        Ownership::ClaimedBy(owner)
    }
}

impl Account {
    pub open spec fn wf(&self) -> bool {
        self.data@.len() <= ACCOUNT_DATA_MAX_LEN
    }

    /// The account as it reads before any program touched it.
    pub fn new_default() -> (r: Account)
        ensures
            r@ == default_account_state(),
            r.wf(),
    {
        let r = Account { program_owner: ProgramId::default_id(), data: Vec::new() };
        assert(r.data@ =~= Seq::<u8>::empty());
        r
    }

    pub fn ownership(&self) -> (r: Ownership)
        ensures
            r == ownership_of(self.program_owner),
    {
        if self.program_owner.is_default_id() {
            Ownership::Unclaimed
        } else {
            Ownership::ClaimedBy(self.program_owner)
        }
    }
}

/// The account state a program computation commits, tagged with whether it
/// claims the account for the invoking program.
#[derive(Clone, Debug, PartialEq, Eq)]
pub struct AccountPostState {
    pub account: Account,
    pub claim: bool,
}

impl AccountPostState {
    /// A post state that leaves ownership as it is.
    pub fn new(account: Account) -> (r: AccountPostState)
        ensures
            r.account == account,
            !r.claim,
    {
        AccountPostState { account, claim: false }
    }

    /// A post state that claims an unclaimed account for the invoking program.
    pub fn new_claimed(account: Account) -> (r: AccountPostState)
        ensures
            r.account == account,
            r.claim,
    {
        AccountPostState { account, claim: true }
    }
}

/// Why the engine refuses a post state.
#[derive(Clone, Copy, Debug, PartialEq, Eq)]
pub enum RejectReason {
    /// The program tried to reassign the owner directly.
    OwnerChanged,
    /// The new data exceeds the account data limit.
    DataTooLong,
    /// The account is claimed by another program and the post state mutates it.
    ForeignOwner,
    /// The transaction names a program that was never deployed.
    UnknownProgram,
    /// The number of post states differs from the number of accounts.
    PostStateCount,
    /// The transaction names one account twice.
    DuplicateAccount,
}

/// The state that results when `program` commits the post state
/// (`post_owner`, `post_data`, `claim`) on an account whose state was `pre`.
pub open spec fn committed_state(
    pre: AccountState,
    post: AccountState,
    claim: bool,
    program: ProgramId,
) -> Result<AccountState, RejectReason> {
    if post.owner != pre.owner {
        Err(RejectReason::OwnerChanged)
    } else if post.data.len() > ACCOUNT_DATA_MAX_LEN {
        Err(RejectReason::DataTooLong)
    } else {
        match ownership_of(pre.owner) {
            Ownership::Unclaimed => Ok(
                AccountState {
                    owner: if claim {
                        program
                    } else {
                        pre.owner
                    },
                    data: post.data,
                },
            ),
            Ownership::ClaimedBy(q) => {
                if q == program {
                    Ok(AccountState { owner: q, data: post.data })
                } else if claim || post.data != pre.data {
                    Err(RejectReason::ForeignOwner)
                } else {
                    Ok(pre)
                }
            },
        }
    }
}

pub open spec fn account_result_view(r: Result<Account, RejectReason>) -> Result<
    AccountState,
    RejectReason,
> {
    match r {
        Ok(a) => Ok(a@),
        Err(e) => Err(e),
    }
}

/// Whether two byte sequences are equal.
pub fn bytes_equal(a: &Vec<u8>, b: &Vec<u8>) -> (r: bool)
    ensures
        r == (a@ == b@),
{
    if a.len() != b.len() {
        return false;
    }
    let mut i: usize = 0;
    while i < a.len()
        invariant
            a@.len() == b@.len(),
            i <= a@.len(),
            forall|j: int| 0 <= j < i ==> a@[j] == b@[j],
        decreases a@.len() - i,
    {
        if a[i] != b[i] {
            return false;
        }
        i = i + 1;
    }
    assert(a@ =~= b@);
    true
}

/// Applies the ownership rules to the post state that `program` computed for
/// an account whose state before the invocation was `pre`.
pub fn commit_post_state(pre: &Account, post: &AccountPostState, program: ProgramId) -> (r: Result<
    Account,
    RejectReason,
>)
    ensures
        account_result_view(r) == committed_state(pre@, post.account@, post.claim, program),
{
    if !post.account.program_owner.same_as(&pre.program_owner) {
        return Err(RejectReason::OwnerChanged);
    }
    if post.account.data.len() > ACCOUNT_DATA_MAX_LEN {
        return Err(RejectReason::DataTooLong);
    }
    match pre.ownership() {
        Ownership::Unclaimed => {
            let owner = if post.claim {
                program
            } else {
                pre.program_owner
            };
            Ok(Account { program_owner: owner, data: post.account.data.clone() })
        },
        Ownership::ClaimedBy(q) => {
            if q.same_as(&program) {
                Ok(Account { program_owner: q, data: post.account.data.clone() })
            } else if post.claim || !bytes_equal(&post.account.data, &pre.data) {
                Err(RejectReason::ForeignOwner)
            } else {
                Ok(Account { program_owner: pre.program_owner, data: pre.data.clone() })
            }
        },
    }
}

/// A successful commit of a claiming post state on an unclaimed account makes
/// the invoking program its owner.
pub proof fn lemma_first_claim_sets_owner(pre: AccountState, post: AccountState, program: ProgramId)
    requires
        pre.owner == default_program_id(),
        committed_state(pre, post, true, program) is Ok,
    ensures
        committed_state(pre, post, true, program)->Ok_0.owner == program,
{
}

/// A successful commit by the program that owns an account leaves it owned by
/// that program, whichever tag the post state carries.
pub proof fn lemma_owner_kept(pre: AccountState, post: AccountState, claim: bool, program: ProgramId)
    requires
        pre.owner == program,
        committed_state(pre, post, claim, program) is Ok,
    ensures
        committed_state(pre, post, claim, program)->Ok_0.owner == program,
{
}

} // verus!
