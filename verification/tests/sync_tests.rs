use fintrack::amount::Amount;
use fintrack::db::accounts::Account;
use fintrack::db::transactions::Transaction;
use fintrack::db::Db;
use fintrack::sync::{
    changed, fetch_window, run_pass, sync_account, AccountFetch, SyncOutcome, FIRST_SYNC_SECS,
    SYNC_WINDOW_SECS,
};
use fintrack::true_layer;
use fintrack::Error;

const NOW: i64 = 1_700_000_000;

fn tl_tx(id: &str, timestamp: i64) -> true_layer::Transaction {
    true_layer::Transaction {
        transaction_id: id.to_string(),
        timestamp,
        description: format!("description of {}", id),
        transaction_type: "DEBIT".to_string(),
        transaction_category: "PURCHASE".to_string(),
        merchant_name: Some("a merchant".to_string()),
        amount: Amount { mantissa: -1234, scale: 2 },
        currency: "GBP".to_string(),
    }
}

fn account_row(id: &str) -> Account {
    Account {
        id: id.to_string(),
        provider_id: "prov-1".to_string(),
        display_name: format!("account {}", id),
    }
}

fn db_with_account(id: &str) -> Db {
    let mut db = Db::new();
    db.accounts.push(account_row(id));
    db
}

fn stored_ids(db: &Db, account: &str) -> Vec<String> {
    db.transactions
        .iter()
        .filter(|t| t.account_id == account)
        .map(|t| t.id.clone())
        .collect()
}

#[test]
fn first_sync_inserts_everything_and_deletes_nothing() {
    // Account A has zero stored transactions; the aggregator returns 3
    // transactions spanning the six-year window.
    let mut db = db_with_account("acc-a");
    let account = "acc-a".to_string();
    let fresh = vec![
        tl_tx("t1", NOW - FIRST_SYNC_SECS + 10),
        tl_tx("t2", NOW - 400 * 86400),
        tl_tx("t3", NOW - 3600),
    ];
    let r = sync_account(&mut db, &account, NOW, fresh);
    assert_eq!(r, Ok(SyncOutcome::FirstSync { inserted: 3 }));
    assert_eq!(db.transactions.len(), 3);
    assert_eq!(stored_ids(&db, "acc-a"), vec!["t1", "t2", "t3"]);
    // Field values survive the conversion.
    let t2 = &db.transactions[1];
    assert_eq!(t2.account_id, "acc-a");
    assert_eq!(t2.timestamp, NOW - 400 * 86400);
    assert_eq!(t2.amount, Amount { mantissa: -1234, scale: 2 });
    assert_eq!(t2.currency, "GBP");
    assert_eq!(t2.transaction_type.as_deref(), Some("DEBIT"));
    assert_eq!(t2.category.as_deref(), Some("PURCHASE"));
    assert_eq!(t2.merchant_name.as_deref(), Some("a merchant"));
}

#[test]
fn incremental_sync_with_same_ids_is_a_noop() {
    // The same 3 ids come back for the trailing window: no delete, no
    // insert.
    let mut db = db_with_account("acc-a");
    let account = "acc-a".to_string();
    let in_window = NOW - SYNC_WINDOW_SECS + 1000;
    let first = vec![tl_tx("t1", in_window), tl_tx("t2", in_window + 5), tl_tx("t3", in_window + 9)];
    sync_account(&mut db, &account, NOW, first).unwrap();
    let before: Vec<String> = stored_ids(&db, "acc-a");

    let again = vec![tl_tx("t1", in_window), tl_tx("t2", in_window + 5), tl_tx("t3", in_window + 9)];
    let r = sync_account(&mut db, &account, NOW, again);
    assert_eq!(r, Ok(SyncOutcome::NoChange));
    assert_eq!(stored_ids(&db, "acc-a"), before);
    assert_eq!(db.transactions.len(), 3);
}

#[test]
fn incremental_sync_with_new_id_replaces_the_window() {
    // The aggregator now returns 4 ids (one new): all window rows are
    // deleted and all 4 are reinserted.
    let mut db = db_with_account("acc-a");
    let account = "acc-a".to_string();
    let in_window = NOW - SYNC_WINDOW_SECS + 1000;
    let first = vec![tl_tx("t1", in_window), tl_tx("t2", in_window + 5), tl_tx("t3", in_window + 9)];
    sync_account(&mut db, &account, NOW, first).unwrap();

    let fresh = vec![
        tl_tx("t1", in_window),
        tl_tx("t2", in_window + 5),
        tl_tx("t3", in_window + 9),
        tl_tx("t4", in_window + 20),
    ];
    let r = sync_account(&mut db, &account, NOW, fresh);
    assert_eq!(r, Ok(SyncOutcome::Refreshed { inserted: 4 }));
    assert_eq!(db.transactions.len(), 4);
    assert_eq!(stored_ids(&db, "acc-a"), vec!["t1", "t2", "t3", "t4"]);
}

#[test]
fn second_pass_with_unchanged_upstream_writes_nothing() {
    // Idempotence: reconciling twice against the same upstream set
    // performs zero writes on the second run.
    let mut db = db_with_account("acc-a");
    let account = "acc-a".to_string();
    let in_window = NOW - SYNC_WINDOW_SECS + 50;
    sync_account(&mut db, &account, NOW, vec![tl_tx("t1", in_window)]).unwrap();
    let fresh = vec![tl_tx("t1", in_window), tl_tx("t5", in_window + 7)];
    let r1 = sync_account(&mut db, &account, NOW, fresh);
    assert_eq!(r1, Ok(SyncOutcome::Refreshed { inserted: 2 }));
    let snapshot: Vec<String> = stored_ids(&db, "acc-a");

    let fresh_again = vec![tl_tx("t1", in_window), tl_tx("t5", in_window + 7)];
    let r2 = sync_account(&mut db, &account, NOW, fresh_again);
    assert_eq!(r2, Ok(SyncOutcome::NoChange));
    assert_eq!(stored_ids(&db, "acc-a"), snapshot);
}

#[test]
fn rows_dated_before_the_window_defeat_idempotence() {
    // Idempotence holds for rows dated inside the fetched window.  A row
    // dated before the window start is stored by the replace but never
    // counted among the stored window ids, so the next pass sees a count
    // mismatch and rewrites again: the boundary the idempotence claim
    // excludes.
    let mut db = db_with_account("acc-a");
    let account = "acc-a".to_string();
    let in_window = NOW - SYNC_WINDOW_SECS + 100;
    sync_account(&mut db, &account, NOW, vec![tl_tx("t1", in_window)]).unwrap();
    let stale = NOW - SYNC_WINDOW_SECS - 100;
    let fresh = vec![tl_tx("t1", in_window), tl_tx("t0", stale)];
    let r1 = sync_account(&mut db, &account, NOW, fresh);
    assert_eq!(r1, Ok(SyncOutcome::Refreshed { inserted: 2 }));
    let fresh_again = vec![tl_tx("t1", in_window), tl_tx("t0", stale)];
    let r2 = sync_account(&mut db, &account, NOW, fresh_again);
    assert!(matches!(r2, Err(_)));
}

#[test]
fn change_detection_ignores_field_values() {
    // The documented blind spot: a category correction upstream with the
    // same id and count is not re-synced.
    let mut db = db_with_account("acc-a");
    let account = "acc-a".to_string();
    let in_window = NOW - SYNC_WINDOW_SECS + 500;
    let mut stored = tl_tx("T1", in_window);
    stored.transaction_category = "Groceries".to_string();
    sync_account(&mut db, &account, NOW, vec![stored]).unwrap();
    assert_eq!(db.transactions[0].category.as_deref(), Some("Groceries"));

    let mut corrected = tl_tx("T1", in_window);
    corrected.transaction_category = "Dining".to_string();

    let saved: Vec<String> = vec!["T1".to_string()];
    assert!(!changed(&vec![corrected], &saved));

    let mut corrected2 = tl_tx("T1", in_window);
    corrected2.transaction_category = "Dining".to_string();
    let r = sync_account(&mut db, &account, NOW, vec![corrected2]);
    assert_eq!(r, Ok(SyncOutcome::NoChange));
    // The stale category stays: current behaviour, asserted exactly.
    assert_eq!(db.transactions[0].category.as_deref(), Some("Groceries"));
}

#[test]
fn changed_flags_count_and_membership_only() {
    let saved = vec!["a".to_string(), "b".to_string()];
    // same ids, same count: unchanged
    assert!(!changed(&vec![tl_tx("a", NOW), tl_tx("b", NOW)], &saved));
    // different count
    assert!(changed(&vec![tl_tx("a", NOW)], &saved));
    // same count, one id not stored
    assert!(changed(&vec![tl_tx("a", NOW), tl_tx("c", NOW)], &saved));
    // order does not matter
    assert!(!changed(&vec![tl_tx("b", NOW), tl_tx("a", NOW)], &saved));
}

#[test]
fn fetch_window_is_six_years_then_trailing() {
    let mut db = db_with_account("acc-a");
    let account = "acc-a".to_string();
    let (from, to) = fetch_window(&db, &account, NOW);
    assert_eq!((from, to), (NOW - FIRST_SYNC_SECS, NOW));
    sync_account(&mut db, &account, NOW, vec![tl_tx("t1", NOW - 5)]).unwrap();
    let (from, to) = fetch_window(&db, &account, NOW);
    assert_eq!((from, to), (NOW - SYNC_WINDOW_SECS, NOW));
}

#[test]
fn run_pass_isolates_per_account_failures() {
    // One account's failed fetch is reported and the pass continues to
    // the next account.
    let mut db = Db::new();
    db.accounts.push(account_row("acc-a"));
    db.accounts.push(account_row("acc-b"));
    let fetched = vec![
        AccountFetch { account_id: "acc-a".to_string(), result: Err(Error::NetworkError) },
        AccountFetch {
            account_id: "acc-b".to_string(),
            result: Ok(vec![tl_tx("t9", NOW - 100)]),
        },
    ];
    let outcomes = run_pass(&mut db, &fetched, NOW);
    assert_eq!(outcomes.len(), 2);
    assert_eq!(outcomes[0], Err(Error::NetworkError));
    assert_eq!(outcomes[1], Ok(SyncOutcome::FirstSync { inserted: 1 }));
    assert_eq!(stored_ids(&db, "acc-a"), Vec::<String>::new());
    assert_eq!(stored_ids(&db, "acc-b"), vec!["t9"]);
}

#[test]
fn run_pass_without_fetch_entry_reports_network_error() {
    let mut db = Db::new();
    db.accounts.push(account_row("acc-a"));
    let outcomes = run_pass(&mut db, &Vec::new(), NOW);
    assert_eq!(outcomes, vec![Err(Error::NetworkError)]);
    assert!(db.transactions.is_empty());
}

#[test]
fn store_refusal_surfaces_as_store_error() {
    // Two fresh rows with the same id make the bulk insert fail as the
    // unique row key would.
    let mut db = db_with_account("acc-a");
    let account = "acc-a".to_string();
    let r = sync_account(
        &mut db,
        &account,
        NOW,
        vec![tl_tx("dup", NOW - 10), tl_tx("dup", NOW - 20)],
    );
    assert_eq!(r, Err(Error::StoreError));
    assert!(db.transactions.is_empty());
}
