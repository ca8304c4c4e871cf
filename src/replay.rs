use vstd::prelude::*;

use crate::accounts::AccountRecord;

verus! {

/// How two slots of one fork relate.
#[derive(Clone, Copy, Debug, PartialEq, Eq, Structural)]
pub enum BlockRelation {
    Ancestor,
    Equal,
    Descendant,
    Unrelated,
    Unknown,
}

/// A fork graph in which the slots form a single chain: the lower slot is the ancestor.
pub struct MockForkGraph {}

impl MockForkGraph {
    pub fn relationship(&self, a: u64, b: u64) -> (r: BlockRelation)
        ensures
            a < b ==> r == BlockRelation::Ancestor,
            a == b ==> r == BlockRelation::Equal,
            a > b ==> r == BlockRelation::Descendant,
    {
        if a < b {
            BlockRelation::Ancestor
        } else if a == b {
            BlockRelation::Equal
        } else {
            BlockRelation::Descendant
        }
    }
}

/// An account source for replaying transactions that knows no account.
#[derive(Clone)]
pub struct MockBankCallback {}

impl MockBankCallback {
    /// The position in `owners` of the owner of `account`: never known here.
    pub fn account_matches_owners(&self, account: &String, owners: &Vec<String>) -> (r: Option<usize>)
        ensures
            r is None,
    {
        None
    }

    /// The state of the account at `address`: never known here.
    pub fn get_account_shared_data(&self, address: &String) -> (r: Option<AccountRecord>)
        ensures
            r is None,
    {
        None
    }

    /// Registers a builtin program; this source keeps no accounts, so nothing changes.
    pub fn add_builtin_account(&self, name: &String, program_id: &String) {
    }
}

} // verus!
