//! The `providers` table: connected institutions and their credentials.

use vstd::prelude::*;

use super::Db;
use crate::text::string_eq;
use crate::Error;

verus! {

/// One connected financial institution together with its credential
/// record.  `expires_at` is seconds since the Unix epoch.
#[derive(Debug, PartialEq)]
pub struct Provider {
    pub id: String,
    pub display_name: String,
    pub logo_url: String,
    pub refresh_token: String,
    pub access_token: String,
    pub expires_at: i64,
}

/// Provider ids are pairwise distinct.
pub open spec fn unique_ids(s: Seq<Provider>) -> bool {
    forall|i: int, j: int| 0 <= i < j < s.len() ==> s[i].id@ != s[j].id@
}

/// Some provider in `s` has the given id.
pub open spec fn has_provider(s: Seq<Provider>, id: Seq<char>) -> bool {
    exists|i: int| 0 <= i < s.len() && s[i].id@ == id
}

/// The index of the provider with the given id.
pub open spec fn provider_index(s: Seq<Provider>, id: Seq<char>) -> int {
    choose|i: int| 0 <= i < s.len() && s[i].id@ == id
}

/// The provider with the given id.
pub open spec fn provider_at(s: Seq<Provider>, id: Seq<char>) -> Provider {
    s[provider_index(s, id)]
}

/// With unique ids, any index whose provider carries `id` is the index
/// that `provider_at` denotes.
pub proof fn lemma_provider_at(s: Seq<Provider>, id: Seq<char>, i: int)
    requires
        unique_ids(s),
        0 <= i < s.len(),
        s[i].id@ == id,
    ensures
        has_provider(s, id),
        provider_index(s, id) == i,
        provider_at(s, id) == s[i],
{
    assert(has_provider(s, id));
    let j = provider_index(s, id);
    if i != j {
        if i < j {
            assert(s[i].id@ != s[j].id@);
        } else {
            assert(s[j].id@ != s[i].id@);
        }
    }
}

/// Gets the ids of all providers in the store.
pub fn all_ids(db: &Db) -> (r: Vec<String>)
    ensures
        r@ == db.providers@.map_values(|p: Provider| p.id),
{
    let mut r: Vec<String> = Vec::new();
    let mut i: usize = 0;
    while i < db.providers.len()
        invariant
            0 <= i <= db.providers@.len(),
            r@ =~= db.providers@.take(i as int).map_values(|p: Provider| p.id),
        decreases db.providers@.len() - i,
    {
        r.push(db.providers[i].id.clone());
        i += 1;
        proof {
            assert(r@ =~= db.providers@.take(i as int).map_values(|p: Provider| p.id));
        }
    }
    proof {
        assert(db.providers@.take(db.providers@.len() as int) =~= db.providers@);
    }
    r
}

/// Inserts a new provider.  The store refuses a second row with an
/// existing id, as the unique key on the real table does.
pub fn insert(db: &mut Db, provider: Provider) -> (r: Result<bool, Error>)
    requires
        old(db).wf(),
    ensures
        final(db).wf(),
        final(db).accounts@ == old(db).accounts@,
        final(db).transactions@ == old(db).transactions@,
        r is Ok <==> !has_provider(old(db).providers@, provider.id@),
        r is Ok ==> final(db).providers@ == old(db).providers@.push(provider) && r->Ok_0 == true,
        r is Err ==> final(db).providers@ == old(db).providers@ && r->Err_0 == Error::StoreError,
{
    let mut i: usize = 0;
    while i < db.providers.len()
        invariant
            0 <= i <= db.providers@.len(),
            forall|j: int| 0 <= j < i ==> db.providers@[j].id@ != provider.id@,
        decreases db.providers@.len() - i,
    {
        if string_eq(&db.providers[i].id, &provider.id) {
            return Err(Error::StoreError);
        }
        i += 1;
    }
    proof {
        let s = db.providers@.push(provider);
        assert forall|a: int, b: int| 0 <= a < b < s.len() implies s[a].id@ != s[b].id@ by {
            if b < s.len() - 1 {
                assert(db.providers@[a].id@ != db.providers@[b].id@);
            } else {
                assert(db.providers@[a].id@ != provider.id@);
            }
        }
    }
    db.providers.push(provider);
    Ok(true)
}

/// Gets the stored credentials `(access_token, expires_at, refresh_token)`
/// of a provider, or a store error when no such provider exists.
pub fn credentials(db: &Db, id: &String) -> (r: Result<(String, i64, String), Error>)
    requires
        db.wf(),
    ensures
        r is Ok <==> has_provider(db.providers@, id@),
        r matches Ok(c) ==> {
            let p = provider_at(db.providers@, id@);
            c.0 == p.access_token && c.1 == p.expires_at && c.2 == p.refresh_token
        },
        r is Err ==> r->Err_0 == Error::StoreError,
{
    let mut i: usize = 0;
    while i < db.providers.len()
        invariant
            0 <= i <= db.providers@.len(),
            forall|j: int| 0 <= j < i ==> db.providers@[j].id@ != id@,
        decreases db.providers@.len() - i,
    {
        if string_eq(&db.providers[i].id, id) {
            proof {
                lemma_provider_at(db.providers@, id@, i as int);
            }
            let p = &db.providers[i];
            return Ok((p.access_token.clone(), p.expires_at, p.refresh_token.clone()));
        }
        i += 1;
    }
    Err(Error::StoreError)
}

/// Overwrites the credential record of the provider with the given id,
/// leaving every other field and row unchanged.  Like the `UPDATE` it
/// stands for, it does nothing when no such provider exists.
pub fn update_credentials(
    db: &mut Db,
    id: &String,
    access_token: String,
    expires_at: i64,
    refresh_token: String,
)
    requires
        old(db).wf(),
    ensures
        final(db).wf(),
        final(db).accounts@ == old(db).accounts@,
        final(db).transactions@ == old(db).transactions@,
        has_provider(old(db).providers@, id@) ==> final(db).providers@ == old(
            db,
        ).providers@.update(
            provider_index(old(db).providers@, id@),
            Provider {
                access_token,
                refresh_token,
                expires_at,
                ..provider_at(old(db).providers@, id@)
            },
        ),
        !has_provider(old(db).providers@, id@) ==> final(db).providers@ == old(db).providers@,
{
    let ghost s0 = db.providers@;
    let mut i: usize = 0;
    while i < db.providers.len()
        invariant
            0 <= i <= s0.len(),
            db.providers@ == s0,
            db.accounts@ == old(db).accounts@,
            db.transactions@ == old(db).transactions@,
            forall|j: int| 0 <= j < i ==> s0[j].id@ != id@,
        decreases s0.len() - i,
    {
        if string_eq(&db.providers[i].id, id) {
            proof {
                lemma_provider_at(s0, id@, i as int);
            }
            let p = &db.providers[i];
            let updated = Provider {
                id: p.id.clone(),
                display_name: p.display_name.clone(),
                logo_url: p.logo_url.clone(),
                refresh_token,
                access_token,
                expires_at,
            };
            db.providers.set(i, updated);
            proof {
                assert forall|a: int, b: int|
                    0 <= a < b < db.providers@.len() implies db.providers@[a].id@
                    != db.providers@[b].id@ by {
                    assert(s0[a].id@ != s0[b].id@);
                }
            }
            return ;
        }
        i += 1;
    }
}

} // verus!
