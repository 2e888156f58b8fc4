//! The engine's image of the persistent store.
//!
//! The real store is an external relational database reached over I/O; the
//! engine's contracts are stated against this in-memory image of its three
//! tables, which also serves as a test double.  Each table module offers
//! the same operations the store adapter offers, with exact contracts: the
//! reconciliation and credential logic is verified against them.

use vstd::prelude::*;

pub mod accounts;
pub mod providers;
pub mod transactions;

verus! {

/// The store contents: providers, accounts and transactions.
pub struct Db {
    pub providers: Vec<providers::Provider>,
    pub accounts: Vec<accounts::Account>,
    pub transactions: Vec<transactions::Transaction>,
}

impl Db {
    /// Well-formedness of the store: provider ids are unique, account ids
    /// are unique, and `(account_id, id)` identifies a transaction row.
    pub open spec fn wf(&self) -> bool {
        &&& providers::unique_ids(self.providers@)
        &&& accounts::unique_ids(self.accounts@)
        &&& transactions::unique_keys(self.transactions@)
    }

    /// An empty store.
    pub fn new() -> (db: Db)
        ensures
            db.wf(),
            db.providers@ == Seq::<providers::Provider>::empty(),
            db.accounts@ == Seq::<accounts::Account>::empty(),
            db.transactions@ == Seq::<transactions::Transaction>::empty(),
    {
        Db { providers: Vec::new(), accounts: Vec::new(), transactions: Vec::new() }
    }
}

} // verus!
