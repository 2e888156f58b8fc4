//! The token broker: the policy deciding when a cached bearer token is
//! stale and what a refresh writes back.
//!
//! Every authenticated call to the aggregator first resolves a token,
//! keyed by a provider id or by an account id; both keys resolve to the
//! same underlying provider credential record.  A token whose expiry is
//! at or before the current instant counts as expired — the boundary
//! itself is expired — and only then is a network refresh called for.
//! The network call itself happens outside; callers perform the refresh
//! this module decides on and hand the response back to
//! [`save_credentials`].  Refresh failures propagate to whatever asked
//! for the token: the broker never retries and never swallows them.

use vstd::prelude::*;

use crate::db;
use crate::db::providers::has_provider;
use crate::db::providers::provider_at;
use crate::db::providers::provider_index;
use crate::db::providers::Provider;
use crate::db::accounts::account_at;
use crate::db::accounts::has_account;
use crate::db::Db;
use crate::true_layer::TokenMetadata;
use crate::true_layer::TokenResponse;
use crate::Error;

verus! {

/// What a token request decides: hand out the cached token, or refresh
/// with the stored refresh token.
#[derive(Debug, PartialEq)]
pub enum TokenAction {
    UseCached { access_token: String },
    Refresh { refresh_token: String },
}

/// Whether a credential record is stale at `now`: exactly when its expiry
/// is at or before `now`.
pub fn needs_refresh(expires_at: i64, now: i64) -> (r: bool)
    ensures
        r == (expires_at <= now),
{
    expires_at <= now
}

/// Decides on a loaded credential record: the cached access token while
/// it is fresh, a refresh with the stored refresh token exactly when
/// `expires_at <= now`.
pub fn token_decision(
    access_token: String,
    expires_at: i64,
    refresh_token: String,
    now: i64,
) -> (r: TokenAction)
    ensures
        expires_at > now ==> r == (TokenAction::UseCached { access_token }),
        expires_at <= now ==> r == (TokenAction::Refresh { refresh_token }),
{
    if needs_refresh(expires_at, now) {
        TokenAction::Refresh { refresh_token }
    } else {
        TokenAction::UseCached { access_token }
    }
}

/// Resolves a token request keyed by provider id: loads the provider's
/// stored credentials and decides.  A network refresh is called for iff
/// the stored expiry is at or before `now`.
pub fn token_step_for_provider(db: &Db, provider_id: &String, now: i64) -> (r: Result<
    TokenAction,
    Error,
>)
    requires
        db.wf(),
    ensures
        r is Ok <==> has_provider(db.providers@, provider_id@),
        r matches Ok(a) ==> {
            let p = provider_at(db.providers@, provider_id@);
            &&& (p.expires_at > now ==> a == (TokenAction::UseCached {
                access_token: p.access_token,
            }))
            &&& (p.expires_at <= now ==> a == (TokenAction::Refresh {
                refresh_token: p.refresh_token,
            }))
        },
        r is Err ==> r->Err_0 == Error::StoreError,
{
    match db::providers::credentials(db, provider_id) {
        Ok((access_token, expires_at, refresh_token)) => Ok(
            token_decision(access_token, expires_at, refresh_token, now),
        ),
        Err(e) => Err(e),
    }
}

/// Resolves a token request keyed by account id: the account's owning
/// provider's credential record decides, exactly as for a provider-keyed
/// request.
pub fn token_step_for_account(db: &Db, account_id: &String, now: i64) -> (r: Result<
    TokenAction,
    Error,
>)
    requires
        db.wf(),
    ensures
        r is Ok <==> has_account(db.accounts@, account_id@) && has_provider(
            db.providers@,
            account_at(db.accounts@, account_id@).provider_id@,
        ),
        r matches Ok(a) ==> {
            let p = provider_at(
                db.providers@,
                account_at(db.accounts@, account_id@).provider_id@,
            );
            &&& (p.expires_at > now ==> a == (TokenAction::UseCached {
                access_token: p.access_token,
            }))
            &&& (p.expires_at <= now ==> a == (TokenAction::Refresh {
                refresh_token: p.refresh_token,
            }))
        },
        r is Err ==> r->Err_0 == Error::StoreError,
{
    match db::accounts::credentials(db, account_id) {
        Ok((access_token, expires_at, refresh_token)) => Ok(
            token_decision(access_token, expires_at, refresh_token, now),
        ),
        Err(e) => Err(e),
    }
}

/// Persists a successful token refresh: the provider's record gets the
/// new access token, the new refresh token and an expiry of
/// `now + expires_in`, in one write; the new access token is returned.
pub fn save_credentials(
    db: &mut Db,
    provider_id: &String,
    token_res: &TokenResponse,
    now: i64,
) -> (r: String)
    requires
        old(db).wf(),
        i64::MIN <= now + token_res.expires_in <= i64::MAX,
    ensures
        final(db).wf(),
        final(db).accounts@ == old(db).accounts@,
        final(db).transactions@ == old(db).transactions@,
        r == token_res.access_token,
        has_provider(old(db).providers@, provider_id@) ==> final(db).providers@ == old(
            db,
        ).providers@.update(
            provider_index(old(db).providers@, provider_id@),
            Provider {
                access_token: token_res.access_token,
                refresh_token: token_res.refresh_token,
                expires_at: (now + token_res.expires_in) as i64,
                ..provider_at(old(db).providers@, provider_id@)
            },
        ),
        !has_provider(old(db).providers@, provider_id@) ==> final(db).providers@ == old(
            db,
        ).providers@,
{
    let expires_at = now + token_res.expires_in;
    db::providers::update_credentials(
        db,
        provider_id,
        token_res.access_token.clone(),
        expires_at,
        token_res.refresh_token.clone(),
    );
    token_res.access_token.clone()
}

/// Builds the provider record that the connect callback stores: identity
/// and naming from the token's metadata, credentials from the token
/// response, expiring `expires_in` seconds from `now`.
pub fn provider_from_tokens(
    metadata: TokenMetadata,
    token_res: TokenResponse,
    now: i64,
) -> (p: Provider)
    requires
        i64::MIN <= now + token_res.expires_in <= i64::MAX,
    ensures
        p == (Provider {
            id: metadata.provider.provider_id,
            display_name: metadata.provider.display_name,
            logo_url: metadata.provider.logo_uri,
            refresh_token: token_res.refresh_token,
            access_token: token_res.access_token,
            expires_at: (now + token_res.expires_in) as i64,
        }),
{
    Provider {
        id: metadata.provider.provider_id,
        display_name: metadata.provider.display_name,
        logo_url: metadata.provider.logo_uri,
        refresh_token: token_res.refresh_token,
        access_token: token_res.access_token,
        expires_at: now + token_res.expires_in,
    }
}

/// Records the accounts fetched for a provider, creating the ones not
/// seen before and leaving existing ones untouched.  Returns how many
/// were created.
pub fn save_provider_accounts(
    db: &mut Db,
    provider: &String,
    accounts: &Vec<crate::true_layer::Account>,
) -> (created: usize)
    requires
        old(db).wf(),
    ensures
        final(db).wf(),
        final(db).providers@ == old(db).providers@,
        final(db).transactions@ == old(db).transactions@,
        final(db).accounts@ == insert_accounts_spec(old(db).accounts@, accounts@, *provider),
        created == final(db).accounts@.len() - old(db).accounts@.len(),
{
    let ghost s0 = db.accounts@;
    let mut created: usize = 0;
    let mut i: usize = 0;
    while i < accounts.len()
        invariant
            0 <= i <= accounts@.len(),
            db.wf(),
            db.providers@ == old(db).providers@,
            db.transactions@ == old(db).transactions@,
            db.accounts@ == insert_accounts_spec(s0, accounts@.take(i as int), *provider),
            s0.len() <= db.accounts@.len() <= s0.len() + i,
            created == db.accounts@.len() - s0.len(),
        decreases accounts@.len() - i,
    {
        let a = &accounts[i];
        let was_created = db::accounts::insert(db, &a.account_id, provider, &a.display_name);
        if was_created {
            created += 1;
        }
        i += 1;
        proof {
            assert(accounts@.take(i as int).drop_last() =~= accounts@.take(i as int - 1));
            assert(accounts@.take(i as int).last() == accounts@[i as int - 1]);
        }
    }
    proof {
        assert(accounts@.take(accounts@.len() as int) =~= accounts@);
    }
    created
}

/// What recording a list of fetched accounts leaves stored: each fetched
/// account in order, created only when its id was not present yet.
pub open spec fn insert_accounts_spec(
    s: Seq<db::accounts::Account>,
    fetched: Seq<crate::true_layer::Account>,
    provider: String,
) -> Seq<db::accounts::Account>
    decreases fetched.len(),
{
    if fetched.len() == 0 {
        s
    } else {
        let prev = insert_accounts_spec(s, fetched.drop_last(), provider);
        if has_account(prev, fetched.last().account_id@) {
            prev
        } else {
            prev.push(
                db::accounts::Account {
                    id: fetched.last().account_id,
                    provider_id: provider,
                    display_name: fetched.last().display_name,
                },
            )
        }
    }
}

} // verus!
