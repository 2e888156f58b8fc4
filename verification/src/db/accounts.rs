//! The `accounts` table: bank accounts under connected providers.

use vstd::prelude::*;

use super::providers;
use super::Db;
use crate::text::string_eq;
use crate::Error;

verus! {

/// One bank account.  Accounts are created when first discovered and are
/// immutable afterwards.
#[derive(Debug, PartialEq)]
pub struct Account {
    pub id: String,
    pub provider_id: String,
    pub display_name: String,
}

/// Account ids are pairwise distinct.
pub open spec fn unique_ids(s: Seq<Account>) -> bool {
    forall|i: int, j: int| 0 <= i < j < s.len() ==> s[i].id@ != s[j].id@
}

/// Some account in `s` has the given id.
pub open spec fn has_account(s: Seq<Account>, id: Seq<char>) -> bool {
    exists|i: int| 0 <= i < s.len() && s[i].id@ == id
}

/// The index of the account with the given id.
pub open spec fn account_index(s: Seq<Account>, id: Seq<char>) -> int {
    choose|i: int| 0 <= i < s.len() && s[i].id@ == id
}

/// The account with the given id.
pub open spec fn account_at(s: Seq<Account>, id: Seq<char>) -> Account {
    s[account_index(s, id)]
}

/// With unique ids, any index whose account carries `id` is the index
/// that `account_at` denotes.
pub proof fn lemma_account_at(s: Seq<Account>, id: Seq<char>, i: int)
    requires
        unique_ids(s),
        0 <= i < s.len(),
        s[i].id@ == id,
    ensures
        has_account(s, id),
        account_index(s, id) == i,
        account_at(s, id) == s[i],
{
    assert(has_account(s, id));
    let j = account_index(s, id);
    if i != j {
        if i < j {
            assert(s[i].id@ != s[j].id@);
        } else {
            assert(s[j].id@ != s[i].id@);
        }
    }
}

/// Clones an account record.
pub fn clone_account(a: &Account) -> (r: Account)
    ensures
        r == *a,
{
    Account {
        id: a.id.clone(),
        provider_id: a.provider_id.clone(),
        display_name: a.display_name.clone(),
    }
}

/// Gets all accounts from the store.
pub fn all(db: &Db) -> (r: Vec<Account>)
    ensures
        r@ == db.accounts@,
{
    let mut r: Vec<Account> = Vec::new();
    let mut i: usize = 0;
    while i < db.accounts.len()
        invariant
            0 <= i <= db.accounts@.len(),
            r@ =~= db.accounts@.take(i as int),
        decreases db.accounts@.len() - i,
    {
        r.push(clone_account(&db.accounts[i]));
        i += 1;
        proof {
            assert(r@ =~= db.accounts@.take(i as int));
        }
    }
    proof {
        assert(db.accounts@.take(db.accounts@.len() as int) =~= db.accounts@);
    }
    r
}

/// Inserts a new account, doing nothing when one with the same id already
/// exists.  Returns whether a row was created.
pub fn insert(db: &mut Db, id: &String, provider: &String, display_name: &String) -> (created:
    bool)
    requires
        old(db).wf(),
    ensures
        final(db).wf(),
        final(db).providers@ == old(db).providers@,
        final(db).transactions@ == old(db).transactions@,
        created == !has_account(old(db).accounts@, id@),
        created ==> final(db).accounts@ == old(db).accounts@.push(
            Account { id: *id, provider_id: *provider, display_name: *display_name },
        ),
        !created ==> final(db).accounts@ == old(db).accounts@,
{
    let mut i: usize = 0;
    while i < db.accounts.len()
        invariant
            0 <= i <= db.accounts@.len(),
            forall|j: int| 0 <= j < i ==> db.accounts@[j].id@ != id@,
        decreases db.accounts@.len() - i,
    {
        if string_eq(&db.accounts[i].id, id) {
            return false;
        }
        i += 1;
    }
    let fresh = Account {
        id: id.clone(),
        provider_id: provider.clone(),
        display_name: display_name.clone(),
    };
    proof {
        let s = db.accounts@.push(fresh);
        assert forall|a: int, b: int| 0 <= a < b < s.len() implies s[a].id@ != s[b].id@ by {
            if b < s.len() - 1 {
                assert(db.accounts@[a].id@ != db.accounts@[b].id@);
            } else {
                assert(db.accounts@[a].id@ != id@);
            }
        }
    }
    db.accounts.push(fresh);
    true
}

/// Gets the credentials `(access_token, expires_at, refresh_token)` of the
/// provider owning the account with the given id, or a store error when
/// the account or its provider is missing.
pub fn credentials(db: &Db, id: &String) -> (r: Result<(String, i64, String), Error>)
    requires
        db.wf(),
    ensures
        r is Ok <==> has_account(db.accounts@, id@) && providers::has_provider(
            db.providers@,
            account_at(db.accounts@, id@).provider_id@,
        ),
        r matches Ok(c) ==> {
            let p = providers::provider_at(
                db.providers@,
                account_at(db.accounts@, id@).provider_id@,
            );
            c.0 == p.access_token && c.1 == p.expires_at && c.2 == p.refresh_token
        },
        r is Err ==> r->Err_0 == Error::StoreError,
{
    let mut i: usize = 0;
    while i < db.accounts.len()
        invariant
            0 <= i <= db.accounts@.len(),
            forall|j: int| 0 <= j < i ==> db.accounts@[j].id@ != id@,
        decreases db.accounts@.len() - i,
    {
        if string_eq(&db.accounts[i].id, id) {
            proof {
                lemma_account_at(db.accounts@, id@, i as int);
            }
            return providers::credentials(db, &db.accounts[i].provider_id);
        }
        i += 1;
    }
    Err(Error::StoreError)
}

} // verus!
