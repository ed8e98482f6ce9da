use vstd::prelude::*;
use crate::account::{
    lemma_first_claim_sets_owner, lemma_owner_kept,
    commit_post_state, committed_state, default_account_state, Account, AccountPostState,
    AccountState, RejectReason,
};
use crate::error::{LezardError, ValidationIssue};
use crate::ids::{default_program_id, AccountId, ProgramId};
use crate::transaction::{witnesses_cover, witnesses_match, PublicTransaction};

verus! {

struct Entry {
    id: AccountId,
    account: Account,
}

/// An in-memory execution engine: a block counter, the deployed programs and
/// the accounts that programs have written. Accounts never written read as
/// the default state.
pub struct LocalEngine {
    height: u64,
    programs: Vec<ProgramId>,
    entries: Vec<Entry>,
}

/// Whether no account occurs twice in `ids`.
pub open spec fn distinct_ids(ids: Seq<AccountId>) -> bool {
    forall|i: int, j: int| 0 <= i < j < ids.len() ==> ids[i] != ids[j]
}

/// Whether `id` occurs in `ids`.
pub open spec fn names_account(ids: Seq<AccountId>, id: AccountId) -> bool {
    exists|k: int| 0 <= k < ids.len() && ids[k] == id
}

/// Whether no account occurs twice in `ids`.
fn all_distinct(ids: &Vec<AccountId>) -> (r: bool)
    ensures
        r == distinct_ids(ids@),
{
    let mut j: usize = 1;
    while j < ids.len()
        invariant
            1 <= j,
            forall|a: int, b: int| 0 <= a < b < j && b < ids@.len() ==> ids@[a] != ids@[b],
        decreases ids@.len() - j,
    {
        let mut i: usize = 0;
        while i < j
            invariant
                j < ids@.len(),
                i <= j,
                forall|a: int| 0 <= a < i ==> ids@[a] != ids@[j as int],
            decreases j - i,
        {
            if ids[i].same_as(&ids[j]) {
                return false;
            }
            i = i + 1;
        }
        j = j + 1;
    }
    true
}

impl LocalEngine {
    pub closed spec fn wf(&self) -> bool {
        &&& forall|i: int, j: int|
            0 <= i < j < self.entries@.len() ==> self.entries@[i].id != self.entries@[j].id
        &&& forall|i: int| 0 <= i < self.entries@.len() ==> self.entries@[i].account.wf()
    }

    /// The last block height the engine has produced.
    pub closed spec fn block_height(&self) -> u64 {
        self.height
    }

    /// Whether `program` has been deployed.
    pub closed spec fn is_deployed(&self, program: ProgramId) -> bool {
        self.programs@.contains(program)
    }

    /// The state that a read of account `id` returns.
    pub closed spec fn account_state(&self, id: AccountId) -> AccountState {
        if exists|i: int| 0 <= i < self.entries@.len() && self.entries@[i].id == id {
            let i = choose|i: int| 0 <= i < self.entries@.len() && self.entries@[i].id == id;
            self.entries@[i].account@
        } else {
            default_account_state()
        }
    }

    /// What `program` commits for account `k` of `ids` with the post states `posts`.
    pub open spec fn committed_at(
        &self,
        program: ProgramId,
        ids: Seq<AccountId>,
        posts: Seq<AccountPostState>,
        k: int,
    ) -> Result<AccountState, RejectReason> {
        committed_state(self.account_state(ids[k]), posts[k].account@, posts[k].claim, program)
    }

    /// Why the engine refuses the invocation, if it does: checks in order of
    /// the transaction's form, the program, the post states, then each account.
    pub open spec fn invocation_error(
        &self,
        tx: PublicTransaction,
        posts: Seq<AccountPostState>,
    ) -> Option<LezardError> {
        let ids = tx.message.account_ids@;
        let program = tx.message.program_id;
        if ids.len() == 0 {
            Some(LezardError::Validation(ValidationIssue::EmptyAccountList))
        } else if !witnesses_match(tx.message.signer_ids@, tx.witness_set.witnesses@) {
            Some(LezardError::Validation(ValidationIssue::MissingWitness))
        } else if !self.is_deployed(program) {
            Some(LezardError::Rejected(RejectReason::UnknownProgram))
        } else if posts.len() != ids.len() {
            Some(LezardError::Rejected(RejectReason::PostStateCount))
        } else if !distinct_ids(ids) {
            Some(LezardError::Rejected(RejectReason::DuplicateAccount))
        } else {
            match self.first_rejection(program, ids, posts, 0) {
                Some(reason) => Some(LezardError::Rejected(reason)),
                None => None,
            }
        }
    }

    /// The reason the first account from the `k`-th on whose post state
    /// does not commit is refused.
    pub open spec fn first_rejection(
        &self,
        program: ProgramId,
        ids: Seq<AccountId>,
        posts: Seq<AccountPostState>,
        k: nat,
    ) -> Option<RejectReason>
        decreases ids.len() - k,
    {
        if k >= ids.len() {
            None
        } else if self.committed_at(program, ids, posts, k as int) is Err {
            Some(self.committed_at(program, ids, posts, k as int)->Err_0)
        } else {
            self.first_rejection(program, ids, posts, k + 1)
        }
    }

    /// The state of account `id` after `program` committed `posts` on `ids`.
    pub open spec fn state_after(
        &self,
        program: ProgramId,
        ids: Seq<AccountId>,
        posts: Seq<AccountPostState>,
        id: AccountId,
    ) -> AccountState {
        if names_account(ids, id) {
            let k = choose|k: int| 0 <= k < ids.len() && ids[k] == id;
            self.committed_at(program, ids, posts, k)->Ok_0
        } else {
            self.account_state(id)
        }
    }

    /// An engine with no block, no program and no written account.
    pub fn new() -> (r: LocalEngine)
        ensures
            r.wf(),
            r.block_height() == 0,
            forall|p: ProgramId| !r.is_deployed(p),
            forall|id: AccountId| r.account_state(id) == default_account_state(),
    {
        LocalEngine { height: 0, programs: Vec::new(), entries: Vec::new() }
    }

    fn find(&self, id: &AccountId) -> (r: Option<usize>)
        ensures
            r matches Some(i) ==> i < self.entries@.len() && self.entries@[i as int].id == *id,
            r is None ==> forall|i: int|
                0 <= i < self.entries@.len() ==> self.entries@[i].id != *id,
    {
        let mut i: usize = 0;
        while i < self.entries.len()
            invariant
                i <= self.entries@.len(),
                forall|j: int| 0 <= j < i ==> self.entries@[j].id != *id,
            decreases self.entries@.len() - i,
        {
            if self.entries[i].id.same_as(id) {
                return Some(i);
            }
            i = i + 1;
        }
        None
    }

    /// Reads the current state of account `id`.
    pub fn read_account(&self, id: &AccountId) -> (r: Account)
        requires
            self.wf(),
        ensures
            r@ == self.account_state(*id),
            r.wf(),
    {
        match self.find(id) {
            Some(i) => {
                let a = &self.entries[i].account;
                Account { program_owner: a.program_owner, data: a.data.clone() }
            },
            None => Account::new_default(),
        }
    }

    /// The last block height the engine has produced.
    pub fn last_block_height(&self) -> (r: u64)
        ensures
            r == self.block_height(),
    {
        self.height
    }

    /// Whether `program` has been deployed.
    pub fn deployed(&self, program: &ProgramId) -> (r: bool)
        ensures
            r == self.is_deployed(*program),
    {
        let mut i: usize = 0;
        while i < self.programs.len()
            invariant
                i <= self.programs@.len(),
                forall|j: int| 0 <= j < i ==> self.programs@[j] != *program,
            decreases self.programs@.len() - i,
        {
            if self.programs[i].same_as(program) {
                return true;
            }
            i = i + 1;
        }
        false
    }

    fn set_account(&mut self, id: AccountId, account: Account)
        requires
            old(self).wf(),
            account.wf(),
        ensures
            final(self).wf(),
            final(self).height == old(self).height,
            final(self).programs == old(self).programs,
            final(self).account_state(id) == account@,
            forall|other: AccountId|
                other != id ==> final(self).account_state(other) == old(self).account_state(other),
    {
        let ghost before = self.entries@;
        let ghost mut idx: int = before.len() as int;
        match self.find(&id) {
            Some(i) => {
                self.entries.set(i, Entry { id, account });
                proof {
                    idx = i as int;
                }
                assert(self.entries@ == before.update(i as int, Entry { id, account }));
                assert(forall|j: int|
                    0 <= j < before.len() && j != i ==> self.entries@[j] == before[j]);
                assert(forall|j: int|
                    0 <= j < self.entries@.len() ==> self.entries@[j].id == before[j].id);
            },
            None => {
                self.entries.push(Entry { id, account });
                assert(self.entries@ == before.push(Entry { id, account }));
                assert(forall|j: int| 0 <= j < before.len() ==> self.entries@[j] == before[j]);
            },
        }
        let ghost after = self.entries@;
        assert(0 <= idx < after.len() && after[idx].id == id && after[idx].account == account);
        assert forall|other: AccountId| other != id implies self.account_state(other)
            == old(self).account_state(other) by {
            if exists|i: int| 0 <= i < after.len() && after[i].id == other {
                let i = choose|i: int| 0 <= i < after.len() && after[i].id == other;
                assert(i < before.len() && before[i].id == other);
            }
            if exists|i: int| 0 <= i < before.len() && before[i].id == other {
                let i = choose|i: int| 0 <= i < before.len() && before[i].id == other;
                assert(after[i].id == other);
            }
        }
    }

    /// Records a deployed program. Its identifier is derived from the
    /// transaction's bytecode outside this engine.
    pub fn submit_deployment(&mut self, tx: &crate::transaction::ProgramDeploymentTransaction, program_id: ProgramId)
        ensures
            final(self).wf() == old(self).wf(),
            final(self).block_height() == old(self).block_height(),
            final(self).is_deployed(program_id),
            forall|p: ProgramId| p != program_id ==> final(self).is_deployed(p) == old(self).is_deployed(p),
            forall|id: AccountId| final(self).account_state(id) == old(self).account_state(id),
    {
        self.programs.push(program_id);
        assert(self.programs@.last() == program_id);
        assert forall|p: ProgramId| p != program_id implies (self.programs@.contains(p) == old(self).programs@.contains(p)) by {
            if old(self).programs@.contains(p) {
                let k = choose|k: int| 0 <= k < old(self).programs@.len() && old(self).programs@[k] == p;
                assert(self.programs@[k] == p);
            }
            if self.programs@.contains(p) {
                let k = choose|k: int| 0 <= k < self.programs@.len() && self.programs@[k] == p;
                assert(old(self).programs@[k] == p);
            }
        }
        assert(self.entries@ == old(self).entries@);
        assert(forall|id: AccountId| self.account_state(id) == old(self).account_state(id));
    }

    /// Runs an invocation whose program computed `posts`, one post state per
    /// account of the message, in order. It is applied whole or not at all.
    pub fn submit_invocation(&mut self, tx: &PublicTransaction, posts: &Vec<AccountPostState>) -> (r:
        Result<(), LezardError>)
        requires
            old(self).wf(),
        ensures
            final(self).wf(),
            final(self).block_height() == old(self).block_height(),
            forall|p: ProgramId| final(self).is_deployed(p) == old(self).is_deployed(p),
            r is Err <==> old(self).invocation_error(*tx, posts@) is Some,
            r matches Err(e) ==> Some(e) == old(self).invocation_error(*tx, posts@),
            r is Err ==> forall|id: AccountId|
                final(self).account_state(id) == old(self).account_state(id),
            r is Ok ==> forall|id: AccountId|
                final(self).account_state(id) == old(self).state_after(
                    tx.message.program_id,
                    tx.message.account_ids@,
                    posts@,
                    id,
                ),
    {
        let ids = &tx.message.account_ids;
        let program = tx.message.program_id;
        if ids.len() == 0 {
            return Err(LezardError::Validation(ValidationIssue::EmptyAccountList));
        }
        if !witnesses_cover(&tx.message.signer_ids, &tx.witness_set.witnesses) {
            return Err(LezardError::Validation(ValidationIssue::MissingWitness));
        }
        if !self.deployed(&program) {
            return Err(LezardError::Rejected(RejectReason::UnknownProgram));
        }
        if posts.len() != ids.len() {
            return Err(LezardError::Rejected(RejectReason::PostStateCount));
        }
        if !all_distinct(ids) {
            return Err(LezardError::Rejected(RejectReason::DuplicateAccount));
        }
        let ghost start = *self;
        let mut updated: Vec<Account> = Vec::new();
        let mut k: usize = 0;
        while k < ids.len()
            invariant
                *self == start,
                start == *old(self),
                ids@ == tx.message.account_ids@,
                program == tx.message.program_id,
                ids@.len() > 0,
                witnesses_match(tx.message.signer_ids@, tx.witness_set.witnesses@),
                start.is_deployed(program),
                distinct_ids(ids@),
                self.wf(),
                posts@.len() == ids@.len(),
                k <= ids@.len(),
                updated@.len() == k,
                forall|j: int|
                    0 <= j < k ==> start.committed_at(program, ids@, posts@, j) == Ok::<
                        AccountState,
                        RejectReason,
                    >(#[trigger] updated@[j]@),
                forall|j: int| 0 <= j < k ==> (#[trigger] updated@[j]).wf(),
                start.first_rejection(program, ids@, posts@, k as nat) == start.first_rejection(
                    program,
                    ids@,
                    posts@,
                    0,
                ),
            decreases ids@.len() - k,
        {
            let pre = self.read_account(&ids[k]);
            match commit_post_state(&pre, &posts[k], program) {
                Ok(a) => {
                    updated.push(a);
                },
                Err(e) => {
                    proof {
                        assert(start.committed_at(program, ids@, posts@, k as int) == Err::<
                            AccountState,
                            RejectReason,
                        >(e));
                        assert(start.first_rejection(program, ids@, posts@, k as nat) == Some(e));
                    }
                    return Err(LezardError::Rejected(e));
                },
            }
            k = k + 1;
        }
        assert(start.first_rejection(program, ids@, posts@, ids@.len() as nat) is None);
        let mut k: usize = 0;
        while k < ids.len()
            invariant
                self.wf(),
                self.height == start.height,
                self.programs == start.programs,
                start == *old(self),
                ids@ == tx.message.account_ids@,
                program == tx.message.program_id,
                distinct_ids(ids@),
                updated@.len() == ids@.len(),
                k <= ids@.len(),
                forall|j: int| 0 <= j < ids@.len() ==> (#[trigger] updated@[j]).wf(),
                forall|j: int|
                    0 <= j < k ==> self.account_state(#[trigger] ids@[j]) == updated@[j]@,
                forall|id: AccountId|
                    !(exists|j: int| 0 <= j < k && ids@[j] == id) ==> self.account_state(id)
                        == start.account_state(id),
            decreases ids@.len() - k,
        {
            let a = Account { program_owner: updated[k].program_owner, data: updated[k].data.clone() };
            self.set_account(ids[k], a);
            proof {
                assert forall|id: AccountId|
                    !(exists|j: int| 0 <= j < k + 1 && ids@[j] == id) implies self.account_state(id)
                    == start.account_state(id) by {
                    assert(id != ids@[k as int]);
                }
            }
            k = k + 1;
        }
        proof {
            assert forall|id: AccountId| self.account_state(id) == start.state_after(
                program,
                ids@,
                posts@,
                id,
            ) by {
                if names_account(ids@, id) {
                    let kk = choose|kk: int| 0 <= kk < ids@.len() && ids@[kk] == id;
                    assert(self.account_state(ids@[kk]) == updated@[kk]@);
                }
            }
        }
        Ok(())
    }

    /// Ends the current block.
    pub fn produce_block(&mut self)
        requires
            old(self).block_height() < u64::MAX,
        ensures
            final(self).block_height() == old(self).block_height() + 1,
            final(self).wf() == old(self).wf(),
            forall|p: ProgramId| final(self).is_deployed(p) == old(self).is_deployed(p),
            forall|id: AccountId| final(self).account_state(id) == old(self).account_state(id),
    {
        self.height = self.height + 1;
        assert(self.entries@ == old(self).entries@);
        assert(forall|id: AccountId| self.account_state(id) == old(self).account_state(id));
    }
}

proof fn lemma_no_rejection_from(
    engine: LocalEngine,
    program: ProgramId,
    ids: Seq<AccountId>,
    posts: Seq<AccountPostState>,
    i: nat,
    k: int,
)
    requires
        engine.first_rejection(program, ids, posts, i) is None,
        i <= k < ids.len(),
    ensures
        engine.committed_at(program, ids, posts, k) is Ok,
    decreases k - i,
{
    if i < k {
        lemma_no_rejection_from(engine, program, ids, posts, i + 1, k);
    }
}

/// After an invocation of program `P` is accepted, each account it names is
/// owned by `P` where the account was unclaimed and `P` claimed it, or where
/// `P` already owned it.
pub proof fn lemma_invocation_owner(
    engine: LocalEngine,
    tx: PublicTransaction,
    posts: Seq<AccountPostState>,
    k: int,
)
    requires
        engine.invocation_error(tx, posts) is None,
        0 <= k < tx.message.account_ids@.len(),
        (engine.account_state(tx.message.account_ids@[k]).owner == default_program_id()
            && posts[k].claim) || engine.account_state(tx.message.account_ids@[k]).owner
            == tx.message.program_id,
    ensures
        engine.state_after(
            tx.message.program_id,
            tx.message.account_ids@,
            posts,
            tx.message.account_ids@[k],
        ).owner == tx.message.program_id,
{
    let ids = tx.message.account_ids@;
    let program = tx.message.program_id;
    lemma_no_rejection_from(engine, program, ids, posts, 0, k);
    let pre = engine.account_state(ids[k]);
    if pre.owner == program {
        lemma_owner_kept(pre, posts[k].account@, posts[k].claim, program);
    } else {
        lemma_first_claim_sets_owner(pre, posts[k].account@, program);
    }
    assert(names_account(ids, ids[k]));
    let kk = choose|kk: int| 0 <= kk < ids.len() && ids[kk] == ids[k];
    assert(kk == k);
}

} // verus!
