use fintrack::broker::{
    needs_refresh, provider_from_tokens, save_credentials, save_provider_accounts,
    token_decision, token_step_for_account, token_step_for_provider, TokenAction,
};
use fintrack::db::{accounts, providers};
use fintrack::db::Db;
use fintrack::true_layer::{
    Account, AccountNumber, ProviderMetadata, TokenMetadata, TokenResponse,
};
use fintrack::Error;

const NOW: i64 = 1_700_000_000;

fn seeded_db(expires_at: i64) -> Db {
    let mut db = Db::new();
    providers::insert(
        &mut db,
        providers::Provider {
            id: "p1".to_string(),
            display_name: "A Bank".to_string(),
            logo_url: "https://logos.example/p1.svg".to_string(),
            refresh_token: "rt-1".to_string(),
            access_token: "at-1".to_string(),
            expires_at,
        },
    )
    .unwrap();
    let id = "acc-1".to_string();
    let prov = "p1".to_string();
    let name = "Main".to_string();
    accounts::insert(&mut db, &id, &prov, &name);
    db
}

fn token_response(expires_in: i64) -> TokenResponse {
    TokenResponse {
        access_token: "at-new".to_string(),
        expires_in,
        refresh_token: "rt-new".to_string(),
        token_type: "Bearer".to_string(),
    }
}

#[test]
fn fresh_token_is_served_from_the_store() {
    // expires_at > now: the cached token comes back, no refresh decided.
    let db = seeded_db(NOW + 1);
    let p1 = "p1".to_string();
    let r = token_step_for_provider(&db, &p1, NOW);
    assert_eq!(r, Ok(TokenAction::UseCached { access_token: "at-1".to_string() }));
}

#[test]
fn expired_token_asks_for_a_refresh() {
    let db = seeded_db(NOW - 5);
    let p1 = "p1".to_string();
    let r = token_step_for_provider(&db, &p1, NOW);
    assert_eq!(r, Ok(TokenAction::Refresh { refresh_token: "rt-1".to_string() }));
}

#[test]
fn expiry_boundary_counts_as_expired() {
    // expires_at == now must be treated as expired.
    assert!(needs_refresh(NOW, NOW));
    assert!(!needs_refresh(NOW + 1, NOW));
    let db = seeded_db(NOW);
    let p1 = "p1".to_string();
    let r = token_step_for_provider(&db, &p1, NOW);
    assert_eq!(r, Ok(TokenAction::Refresh { refresh_token: "rt-1".to_string() }));
}

#[test]
fn account_key_resolves_to_the_same_provider_record() {
    let db = seeded_db(NOW + 100);
    let acc = "acc-1".to_string();
    let p1 = "p1".to_string();
    assert_eq!(
        token_step_for_account(&db, &acc, NOW),
        token_step_for_provider(&db, &p1, NOW)
    );
    let db = seeded_db(NOW - 100);
    assert_eq!(
        token_step_for_account(&db, &acc, NOW),
        token_step_for_provider(&db, &p1, NOW)
    );
}

#[test]
fn unknown_subjects_are_store_errors() {
    let db = seeded_db(NOW + 1);
    let missing = "p9".to_string();
    assert_eq!(token_step_for_provider(&db, &missing, NOW), Err(Error::StoreError));
    let missing_acc = "acc-9".to_string();
    assert_eq!(token_step_for_account(&db, &missing_acc, NOW), Err(Error::StoreError));
}

#[test]
fn token_decision_returns_the_matching_secret() {
    let cached = token_decision("a".to_string(), NOW + 1, "r".to_string(), NOW);
    assert_eq!(cached, TokenAction::UseCached { access_token: "a".to_string() });
    let refresh = token_decision("a".to_string(), NOW, "r".to_string(), NOW);
    assert_eq!(refresh, TokenAction::Refresh { refresh_token: "r".to_string() });
}

#[test]
fn save_credentials_persists_the_refresh_atomically() {
    let mut db = seeded_db(NOW - 5);
    let p1 = "p1".to_string();
    let returned = save_credentials(&mut db, &p1, &token_response(3600), NOW);
    assert_eq!(returned, "at-new");
    assert_eq!(
        providers::credentials(&db, &p1),
        Ok(("at-new".to_string(), NOW + 3600, "rt-new".to_string()))
    );
    // identity and naming untouched
    assert_eq!(db.providers[0].display_name, "A Bank");
}

#[test]
fn provider_from_tokens_combines_metadata_and_secrets() {
    let metadata = TokenMetadata {
        provider: ProviderMetadata {
            provider_id: "p7".to_string(),
            display_name: "Seventh Bank".to_string(),
            logo_uri: "https://logos.example/p7.svg".to_string(),
        },
    };
    let p = provider_from_tokens(metadata, token_response(120), NOW);
    assert_eq!(p.id, "p7");
    assert_eq!(p.display_name, "Seventh Bank");
    assert_eq!(p.logo_url, "https://logos.example/p7.svg");
    assert_eq!(p.access_token, "at-new");
    assert_eq!(p.refresh_token, "rt-new");
    assert_eq!(p.expires_at, NOW + 120);
}

#[test]
fn save_provider_accounts_creates_only_new_ones() {
    let mut db = seeded_db(NOW + 1);
    let fetched = vec![
        Account {
            account_id: "acc-1".to_string(),
            account_type: "TRANSACTION".to_string(),
            account_number: AccountNumber { iban: None, number: None, sort_code: None },
            currency: "GBP".to_string(),
            display_name: "Main".to_string(),
            update_timestamp: "2020-01-01T00:00:00Z".to_string(),
            provider: ProviderMetadata {
                provider_id: "p1".to_string(),
                display_name: "A Bank".to_string(),
                logo_uri: "https://logos.example/p1.svg".to_string(),
            },
            description: None,
        },
        Account {
            account_id: "acc-2".to_string(),
            account_type: "SAVINGS".to_string(),
            account_number: AccountNumber { iban: None, number: None, sort_code: None },
            currency: "GBP".to_string(),
            display_name: "Savings".to_string(),
            update_timestamp: "2020-01-01T00:00:00Z".to_string(),
            provider: ProviderMetadata {
                provider_id: "p1".to_string(),
                display_name: "A Bank".to_string(),
                logo_uri: "https://logos.example/p1.svg".to_string(),
            },
            description: Some("rainy day".to_string()),
        },
    ];
    let p1 = "p1".to_string();
    let created = save_provider_accounts(&mut db, &p1, &fetched);
    assert_eq!(created, 1);
    assert_eq!(db.accounts.len(), 2);
    assert_eq!(db.accounts[1].id, "acc-2");
    assert_eq!(db.accounts[1].provider_id, "p1");
    assert_eq!(db.accounts[1].display_name, "Savings");
}
