use vstd::prelude::*;
use vstd::bytes::{spec_u64_from_le_bytes, spec_u64_to_le_bytes, u64_from_le_bytes, u64_to_le_bytes};
use crate::account::{Account, AccountPostState};
use crate::ids::default_program_id;

verus! {

/// The data the doubling program writes over `data`: the little-endian
/// 8-byte value 1 when `data` is empty, twice the value it holds when it holds
/// one. Anything else, and a value that would not fit when doubled, makes the
/// program fail.
pub open spec fn doubled_data(data: Seq<u8>) -> Option<Seq<u8>> {
    if data.len() == 0 {
        Some(spec_u64_to_le_bytes(1))
    } else if data.len() == 8 && spec_u64_from_le_bytes(data) <= u64::MAX / 2 {
        Some(spec_u64_to_le_bytes((2 * spec_u64_from_le_bytes(data)) as u64))
    } else {
        None
    }
}

/// Reads account data as a little-endian 8-byte integer.
pub fn read_u64(data: &Vec<u8>) -> (r: Option<u64>)
    ensures
        r is Some <==> data@.len() == 8,
        r matches Some(v) ==> v == spec_u64_from_le_bytes(data@),
{
    if data.len() != 8 {
        return None;
    }
    Some(u64_from_le_bytes(data.as_slice()))
}

/// The computation of the doubling program on one account: the post state it
/// commits, claiming the account when it is unowned, or `None` where the
/// program fails.
pub fn double_post_state(pre: &Account) -> (r: Option<AccountPostState>)
    ensures
        r is Some <==> doubled_data(pre.data@) is Some,
        r matches Some(post) ==> (post.account.program_owner == pre.program_owner
            && post.account.data@ == doubled_data(pre.data@)->Some_0 && post.claim == (
        pre.program_owner == default_program_id())),
{
    let value: u64 = if pre.data.len() == 0 {
        1
    } else {
        match read_u64(&pre.data) {
            Some(v) => {
                if v > u64::MAX / 2 {
                    return None;
                }
                2 * v
            },
            None => {
                return None;
            },
        }
    };
    let account = Account { program_owner: pre.program_owner, data: u64_to_le_bytes(value) };
    if pre.program_owner.is_default_id() {
        Some(AccountPostState::new_claimed(account))
    } else {
        Some(AccountPostState::new(account))
    }
}

} // verus!
