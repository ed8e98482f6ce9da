//! Transaction-confirmation protocol for an account-based execution engine:
//! identifiers, account ownership, transaction assembly, confirmation waiting
//! and an in-memory engine model.

pub mod account;
pub mod confirm;
pub mod double;
pub mod engine;
pub mod error;
pub mod ids;
pub mod transaction;

pub use account::{
    bytes_equal, commit_post_state, Account, AccountPostState, Ownership, RejectReason,
    ACCOUNT_DATA_MAX_LEN,
};
pub use ids::{preset_account_ids, AccountId, ProgramId, NUM_PRESET_ACCOUNTS};
pub use error::{LezardError, ValidationIssue};
pub use transaction::{
    build_unsigned_invocation, witnesses_cover, Message, ProgramDeploymentTransaction, PublicTransaction, Witness,
    WitnessSet,
};
pub use confirm::{await_progress, ConfirmationWaiter, WaitStep};
pub use double::{double_post_state, read_u64};
pub use engine::LocalEngine;
