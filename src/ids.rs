use vstd::prelude::*;

verus! {

broadcast use vstd::array::group_array_axioms;

/// Identifier of an account: 32 bytes chosen by the caller.
#[derive(Clone, Copy, Debug, PartialEq, Eq, Hash)]
pub struct AccountId {
    pub value: [u8; 32],
}

/// Identifier of a program: eight words derived from its bytecode.
/// The all-zero value stands for "no owning program".
#[derive(Clone, Copy, Debug, PartialEq, Eq, Hash)]
pub struct ProgramId {
    pub words: [u32; 8],
}

impl AccountId {
    pub fn new(value: [u8; 32]) -> (r: AccountId)
        ensures
            r.value == value,
    {
        AccountId { value }
    }

    pub fn value(&self) -> (r: [u8; 32])
        ensures
            r == self.value,
    {
        self.value
    }

    /// Whether two identifiers name the same account.
    pub fn same_as(&self, other: &AccountId) -> (r: bool)
        ensures
            r == (*self == *other),
    {
        let mut i: usize = 0;
        while i < 32
            invariant
                i <= 32,
                forall|j: int| 0 <= j < i ==> self.value@[j] == other.value@[j],
            decreases 32 - i,
        {
            if self.value[i] != other.value[i] {
                return false;
            }
            i = i + 1;
        }
        assert(self.value =~= other.value);
        true
    }
}

impl ProgramId {
    pub open spec fn is_default(self) -> bool {
        forall|j: int| 0 <= j < 8 ==> self.words@[j] == 0
    }

    pub fn new(words: [u32; 8]) -> (r: ProgramId)
        ensures
            r.words == words,
    {
        ProgramId { words }
    }

    /// The reserved identifier that marks an account as owned by no program.
    pub fn default_id() -> (r: ProgramId)
        ensures
            r == default_program_id(),
    {
        let r = ProgramId { words: [0u32; 8] };
        assert(r.words =~= default_program_id().words);
        r
    }

    /// Whether two identifiers name the same program.
    pub fn same_as(&self, other: &ProgramId) -> (r: bool)
        ensures
            r == (*self == *other),
    {
        let mut i: usize = 0;
        while i < 8
            invariant
                i <= 8,
                forall|j: int| 0 <= j < i ==> self.words@[j] == other.words@[j],
            decreases 8 - i,
        {
            if self.words[i] != other.words[i] {
                return false;
            }
            i = i + 1;
        }
        assert(self.words =~= other.words);
        true
    }

    /// Whether this is the reserved "no owning program" identifier.
    pub fn is_default_id(&self) -> (r: bool)
        ensures
            r == (*self == default_program_id()),
    {
        let d = ProgramId::default_id();
        self.same_as(&d)
    }
}

/// Number of ready-made account identifiers handed to a test scenario.
pub const NUM_PRESET_ACCOUNTS: usize = 10;

/// The ready-made account identifiers: the `i`-th is 32 bytes of `i + 1`.
pub fn preset_account_ids() -> (r: Vec<AccountId>)
    ensures
        r@.len() == NUM_PRESET_ACCOUNTS,
        forall|i: int, j: int|
            0 <= i < NUM_PRESET_ACCOUNTS && 0 <= j < 32 ==> #[trigger] r@[i].value@[j] == (i + 1) as u8,
{
    let mut r: Vec<AccountId> = Vec::new();
    let mut i: usize = 0;
    while i < NUM_PRESET_ACCOUNTS
        invariant
            i <= NUM_PRESET_ACCOUNTS,
            r@.len() == i,
            forall|a: int, j: int| 0 <= a < i && 0 <= j < 32 ==> #[trigger] r@[a].value@[j] == (a + 1) as u8,
        decreases NUM_PRESET_ACCOUNTS - i,
    {
        let b: u8 = (i + 1) as u8;
        r.push(AccountId::new([b; 32]));
        i = i + 1;
    }
    r
}

/// The reserved identifier of no program: all words zero.
pub open spec fn default_program_id() -> ProgramId {
    ProgramId { words: spec_zero_words() }
}

pub open spec fn spec_zero_words() -> [u32; 8] {
    vstd::array::spec_array_fill_for_copy_type(0u32)
}

} // verus!
