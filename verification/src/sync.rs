//! The reconciliation engine.
//!
//! Per account the engine has two branches.  On a first sync (no row ever
//! stored for the account) it inserts the full fetched history.  On an
//! incremental sync it compares the stored transaction ids of a trailing
//! window with the freshly fetched set: when the counts differ or a fresh
//! id is absent from the store, it deletes the account's window rows and
//! re-inserts the full fresh set; otherwise it performs no writes.
//!
//! By design the comparison is presence-and-count only: it never compares
//! field values between a stored and a fresh row carrying the same id, so
//! a row whose category or description was corrected upstream, without its
//! id, membership or the window count changing, is not re-synced.  That
//! blind spot is current behaviour, kept as is; whether it is intended is
//! an open question of the sync policy.
//!
//! Fetching is I/O and stays outside: callers first ask for the window to
//! fetch, perform the fetch, and hand the decoded rows to the engine.

use vstd::prelude::*;

use crate::db;
use crate::db::transactions::Transaction;
use crate::db::transactions::has_tx;
use crate::db::transactions::ids_of;
use crate::db::transactions::in_window;
use crate::db::transactions::retained;
use crate::db::transactions::unique_keys;
use crate::db::transactions::window_txs;
use crate::db::Db;
use crate::text::string_eq;
use crate::text::strs_view;
use crate::text::vec_contains_string;
use crate::true_layer;
use crate::Error;

verus! {

/// Length of the trailing window re-compared on each incremental sync:
/// thirty days, in seconds.
pub const SYNC_WINDOW_SECS: i64 = 30 * 86400;

/// Length of the history fetched on a first sync: six years of 365 days,
/// in seconds.
pub const FIRST_SYNC_SECS: i64 = 6 * 365 * 86400;

/// Start of the incremental sync window at time `now`.
pub open spec fn window_start_spec(now: int) -> int {
    now - SYNC_WINDOW_SECS
}

/// The ids of freshly fetched transactions, as character sequences.
pub open spec fn fresh_ids(fresh: Seq<true_layer::Transaction>) -> Seq<Seq<char>> {
    fresh.map_values(|t: true_layer::Transaction| t.transaction_id@)
}

/// Change detection: the fresh set differs from the stored ids when the
/// counts differ or some fresh id is not stored.  Nothing else is
/// compared.
pub open spec fn changed_spec(
    fresh: Seq<true_layer::Transaction>,
    stored: Seq<Seq<char>>,
) -> bool {
    fresh.len() != stored.len() || exists|i: int|
        0 <= i < fresh.len() && !stored.contains(fresh[i].transaction_id@)
}

/// A fetched transaction as it is stored for the given account.
pub open spec fn convert_spec(t: true_layer::Transaction, account: String) -> Transaction {
    Transaction {
        id: t.transaction_id,
        account_id: account,
        timestamp: t.timestamp,
        amount: t.amount,
        currency: t.currency,
        transaction_type: Some(t.transaction_type),
        category: Some(t.transaction_category),
        description: Some(t.description),
        merchant_name: t.merchant_name,
    }
}

/// The stored form of a whole fetched set.
pub open spec fn convert_all_spec(
    fresh: Seq<true_layer::Transaction>,
    account: String,
) -> Seq<Transaction> {
    fresh.map_values(|t: true_layer::Transaction| convert_spec(t, account))
}

/// What one reconciliation that wrote leaves stored for the account: the
/// rows outside the window, followed by the full fresh set.  (On a first
/// sync no row of the account is inside or outside the window, so this is
/// the old store plus the fresh set.)
pub open spec fn replaced(
    s: Seq<Transaction>,
    fresh: Seq<true_layer::Transaction>,
    account: String,
    now: int,
) -> Seq<Transaction> {
    retained(s, account@, window_start_spec(now)) + convert_all_spec(fresh, account)
}

/// The outcome of one account's reconciliation.
#[derive(Debug, PartialEq)]
pub enum SyncOutcome {
    FirstSync { inserted: usize },
    Refreshed { inserted: usize },
    NoChange,
}

/// Decides whether the fresh set differs from the stored ids: true when
/// the counts differ or some fresh transaction's id is not among the
/// stored ids.
pub fn changed(new: &Vec<true_layer::Transaction>, old: &Vec<String>) -> (r: bool)
    ensures
        r == changed_spec(new@, strs_view(old@)),
{
    if new.len() != old.len() {
        return true;
    }
    let mut i: usize = 0;
    while i < new.len()
        invariant
            0 <= i <= new@.len(),
            new@.len() == old@.len(),
            forall|j: int| 0 <= j < i ==> strs_view(old@).contains(#[trigger] new@[j].transaction_id@),
        decreases new@.len() - i,
    {
        if !vec_contains_string(old, &new[i].transaction_id) {
            return true;
        }
        i += 1;
    }
    false
}

/// Converts one fetched transaction into its stored form.
pub fn true_layer_to_db(t: true_layer::Transaction, account: &String) -> (r: Transaction)
    ensures
        r == convert_spec(t, *account),
{
    Transaction {
        id: t.transaction_id,
        account_id: account.clone(),
        timestamp: t.timestamp,
        amount: t.amount,
        currency: t.currency,
        transaction_type: Some(t.transaction_type),
        category: Some(t.transaction_category),
        description: Some(t.description),
        merchant_name: t.merchant_name,
    }
}

/// Converts a whole fetched set into its stored form.
fn convert_all(fresh: Vec<true_layer::Transaction>, account: &String) -> (r: Vec<Transaction>)
    ensures
        r@ == convert_all_spec(fresh@, *account),
{
    let mut r: Vec<Transaction> = Vec::new();
    let mut rest = fresh;
    let ghost all = rest@;
    let total = rest.len();
    proof {
        assert(all.len() == total);
    }
    let mut i: usize = 0;
    while rest.len() > 0
        invariant
            0 <= i <= all.len(),
            all.len() <= usize::MAX,
            rest@ == all.skip(i as int),
            r@ =~= convert_all_spec(all.take(i as int), *account),
        decreases rest@.len(),
    {
        let t = rest.remove(0);
        proof {
            assert(t == all[i as int]);
            assert(rest@ =~= all.skip(i as int + 1));
        }
        r.push(true_layer_to_db(t, account));
        i += 1;
        proof {
            assert(r@ =~= convert_all_spec(all.take(i as int), *account));
        }
    }
    proof {
        assert(all.take(i as int) =~= all);
    }
    r
}

/// A sequence none of whose rows lies in the account's window filters to
/// nothing.
proof fn lemma_window_txs_none(r: Seq<Transaction>, account: Seq<char>, since: int)
    requires
        forall|i: int| 0 <= i < r.len() ==> !in_window(#[trigger] r[i], account, since),
    ensures
        window_txs(r, account, since) == Seq::<Transaction>::empty(),
    decreases r.len(),
{
    reveal(Seq::filter);
    if r.len() > 0 {
        lemma_window_txs_none(r.drop_last(), account, since);
    }
}

/// A sequence all of whose rows lie in the account's window filters to
/// itself.
proof fn lemma_window_txs_all(r: Seq<Transaction>, account: Seq<char>, since: int)
    requires
        forall|i: int| 0 <= i < r.len() ==> in_window(#[trigger] r[i], account, since),
    ensures
        window_txs(r, account, since) == r,
    decreases r.len(),
{
    reveal(Seq::filter);
    if r.len() > 0 {
        lemma_window_txs_all(r.drop_last(), account, since);
        assert(window_txs(r, account, since) =~= r);
    }
}

/// Full-replace determinism.  After a reconciliation that detected change
/// (and after a first sync), the rows stored for the account's window are
/// exactly the freshly fetched set: same rows in order, so the same ids —
/// no leftover row, and no duplicate when the fresh ids carry none.  It
/// holds whenever the fetched rows are dated inside the window, as a fetch
/// of that window returns them.
pub proof fn lemma_full_replace_determinism(
    s: Seq<Transaction>,
    fresh: Seq<true_layer::Transaction>,
    account: String,
    now: int,
)
    requires
        forall|i: int| 0 <= i < fresh.len() ==> #[trigger] fresh[i].timestamp >= window_start_spec(
            now,
        ),
    ensures
        window_txs(replaced(s, fresh, account, now), account@, window_start_spec(now))
            == convert_all_spec(fresh, account),
        strs_view(
            ids_of(window_txs(replaced(s, fresh, account, now), account@, window_start_spec(now))),
        ) == fresh_ids(fresh),
        fresh_ids(fresh).no_duplicates() ==> strs_view(
            ids_of(window_txs(replaced(s, fresh, account, now), account@, window_start_spec(now))),
        ).no_duplicates(),
{
    broadcast use Seq::lemma_filter_pred;
    broadcast use Seq::filter_distributes_over_add;

    let ws = window_start_spec(now);
    let kept = retained(s, account@, ws);
    let conv = convert_all_spec(fresh, account);
    assert forall|i: int| 0 <= i < kept.len() implies !in_window(#[trigger] kept[i], account@, ws) by {
        assert(kept[i] == s.filter(|t: Transaction| !in_window(t, account@, ws))[i]);
    }
    lemma_window_txs_none(kept, account@, ws);
    assert forall|i: int| 0 <= i < conv.len() implies in_window(#[trigger] conv[i], account@, ws) by {
        assert(conv[i] == convert_spec(fresh[i], account));
    }
    lemma_window_txs_all(conv, account@, ws);
    assert(window_txs(kept + conv, account@, ws) =~= conv);
    assert(strs_view(ids_of(conv)) =~= fresh_ids(fresh));
}

/// Idempotence.  Running a reconciliation pass twice against an unchanged
/// upstream set performs zero writes on the second run: after the pass
/// that wrote, the stored window ids match the fresh set, so the second
/// pass detects no change, and by the engine's contract a pass that
/// detects no change performs no writes.  As above, the fetched rows must
/// be dated inside the window for the claim to hold.
pub proof fn lemma_reconciliation_idempotent(
    s: Seq<Transaction>,
    fresh: Seq<true_layer::Transaction>,
    account: String,
    now: int,
)
    requires
        forall|i: int| 0 <= i < fresh.len() ==> #[trigger] fresh[i].timestamp >= window_start_spec(
            now,
        ),
    ensures
        !changed_spec(
            fresh,
            strs_view(
                ids_of(
                    window_txs(replaced(s, fresh, account, now), account@, window_start_spec(now)),
                ),
            ),
        ),
        fresh.len() > 0 ==> has_tx(replaced(s, fresh, account, now), account@),
{
    lemma_full_replace_determinism(s, fresh, account, now);
    let stored = strs_view(
        ids_of(window_txs(replaced(s, fresh, account, now), account@, window_start_spec(now))),
    );
    assert forall|i: int| 0 <= i < fresh.len() implies stored.contains(
        fresh[i].transaction_id@,
    ) by {
        assert(stored[i] == fresh[i].transaction_id@);
    }
    if fresh.len() > 0 {
        let r = replaced(s, fresh, account, now);
        let kept = retained(s, account@, window_start_spec(now));
        assert(r[kept.len() as int] == convert_all_spec(fresh, account)[0]);
        assert(r[kept.len() as int].account_id@ == account@);
    }
}

/// The change-detection blind spot, in general form: the decision reads
/// only the ids and the count of the fresh set, so two fresh sets whose
/// ids agree position by position decide alike, whatever their amounts,
/// categories or descriptions.
pub proof fn lemma_change_detection_ids_only(
    f1: Seq<true_layer::Transaction>,
    f2: Seq<true_layer::Transaction>,
    stored: Seq<Seq<char>>,
)
    requires
        f1.len() == f2.len(),
        forall|i: int|
            0 <= i < f1.len() ==> #[trigger] f1[i].transaction_id@ == #[trigger] f2[i].transaction_id@,
    ensures
        changed_spec(f1, stored) == changed_spec(f2, stored),
{
    if exists|i: int| 0 <= i < f1.len() && !stored.contains(f1[i].transaction_id@) {
        let i = choose|i: int| 0 <= i < f1.len() && !stored.contains(f1[i].transaction_id@);
        assert(!stored.contains(f2[i].transaction_id@));
    }
    if exists|i: int| 0 <= i < f2.len() && !stored.contains(f2[i].transaction_id@) {
        let i = choose|i: int| 0 <= i < f2.len() && !stored.contains(f2[i].transaction_id@);
        assert(!stored.contains(f1[i].transaction_id@));
    }
}

/// The time range to fetch for an account at time `now`: the full history
/// window when nothing is stored yet, else the trailing sync window.
pub fn fetch_window(db: &Db, account_id: &String, now: i64) -> (r: (i64, i64))
    requires
        now - FIRST_SYNC_SECS >= i64::MIN,
    ensures
        has_tx(db.transactions@, account_id@) ==> r.0 == window_start_spec(now as int),
        !has_tx(db.transactions@, account_id@) ==> r.0 == now - FIRST_SYNC_SECS,
        r.1 == now,
{
    if db::transactions::has_any(db, account_id) {
        (now - SYNC_WINDOW_SECS, now)
    } else {
        (now - FIRST_SYNC_SECS, now)
    }
}

/// Reconciles one account against the freshly fetched set `fresh`.
///
/// On a first sync every fetched row is inserted and nothing is deleted.
/// On an incremental sync, if change is detected the account's window
/// rows are deleted and the full fresh set is inserted; otherwise no
/// write is performed.  A store refusal (a duplicate row key) surfaces as
/// a store error; the deletion that preceded the refused insert stays, as
/// it does in the real store, where the two statements are separate.
pub fn sync_account(
    db: &mut Db,
    account_id: &String,
    now: i64,
    fresh: Vec<true_layer::Transaction>,
) -> (r: Result<SyncOutcome, Error>)
    requires
        old(db).wf(),
        now - SYNC_WINDOW_SECS >= i64::MIN,
    ensures
        final(db).wf(),
        final(db).providers@ == old(db).providers@,
        final(db).accounts@ == old(db).accounts@,
        !has_tx(old(db).transactions@, account_id@) ==> {
            let conv = convert_all_spec(fresh@, *account_id);
            &&& (r is Ok <==> unique_keys(old(db).transactions@ + conv))
            &&& (r is Ok ==> final(db).transactions@ == old(db).transactions@ + conv
                && r->Ok_0 == (SyncOutcome::FirstSync { inserted: fresh.len() }))
            &&& (r is Err ==> final(db).transactions@ == old(db).transactions@
                && r->Err_0 == Error::StoreError)
        },
        has_tx(old(db).transactions@, account_id@) && !changed_spec(
            fresh@,
            strs_view(
                ids_of(window_txs(old(db).transactions@, account_id@, window_start_spec(now as int))),
            ),
        ) ==> r == Result::<SyncOutcome, Error>::Ok(SyncOutcome::NoChange) && final(db).transactions@
            == old(db).transactions@,
        has_tx(old(db).transactions@, account_id@) && changed_spec(
            fresh@,
            strs_view(
                ids_of(window_txs(old(db).transactions@, account_id@, window_start_spec(now as int))),
            ),
        ) ==> {
            let kept = retained(old(db).transactions@, account_id@, window_start_spec(now as int));
            let conv = convert_all_spec(fresh@, *account_id);
            &&& (r is Ok <==> unique_keys(kept + conv))
            &&& (r is Ok ==> final(db).transactions@ == kept + conv
                && r->Ok_0 == (SyncOutcome::Refreshed { inserted: fresh.len() }))
            &&& (r is Err ==> final(db).transactions@ == kept && r->Err_0 == Error::StoreError)
        },
{
    let window_start = now - SYNC_WINDOW_SECS;
    if db::transactions::has_any(db, account_id) {
        let saved = db::transactions::ids_after(db, account_id, window_start);
        if changed(&fresh, &saved) {
            let count = fresh.len();
            db::transactions::delete_after(db, account_id, window_start);
            let rows = convert_all(fresh, account_id);
            match db::transactions::insert_many(db, rows) {
                Ok(_) => Ok(SyncOutcome::Refreshed { inserted: count }),
                Err(e) => Err(e),
            }
        } else {
            Ok(SyncOutcome::NoChange)
        }
    } else {
        let count = fresh.len();
        let rows = convert_all(fresh, account_id);
        match db::transactions::insert_many(db, rows) {
            Ok(_) => Ok(SyncOutcome::FirstSync { inserted: count }),
            Err(e) => Err(e),
        }
    }
}

/// One account's fetch outcome, as handed to a pass: the rows the
/// aggregator returned for the account's window, or the error that the
/// fetch (token refresh included) ended in.
pub struct AccountFetch {
    pub account_id: String,
    pub result: Result<Vec<true_layer::Transaction>, Error>,
}

/// The fetch outcome recorded for an account: the first entry carrying
/// its id, or a network error when none is recorded.
pub open spec fn find_fetch(fetched: Seq<AccountFetch>, account: Seq<char>) -> Result<
    Seq<true_layer::Transaction>,
    Error,
>
    decreases fetched.len(),
{
    if fetched.len() == 0 {
        Result::Err(Error::NetworkError)
    } else if fetched[0].account_id@ == account {
        match fetched[0].result {
            Ok(v) => Result::Ok(v@),
            Err(e) => Result::Err(e),
        }
    } else {
        find_fetch(fetched.drop_first(), account)
    }
}

/// What one account's turn of a pass leaves stored: nothing on a failed
/// fetch, else the engine's reconciliation result.
pub open spec fn account_pass_step(
    s: Seq<Transaction>,
    account_id: String,
    fetch: Result<Seq<true_layer::Transaction>, Error>,
    now: int,
) -> Seq<Transaction> {
    match fetch {
        Result::Err(_) => s,
        Result::Ok(fresh) => {
            let ws = window_start_spec(now);
            let conv = convert_all_spec(fresh, account_id);
            if !has_tx(s, account_id@) {
                if unique_keys(s + conv) {
                    s + conv
                } else {
                    s
                }
            } else if changed_spec(fresh, strs_view(ids_of(window_txs(s, account_id@, ws)))) {
                let kept = retained(s, account_id@, ws);
                if unique_keys(kept + conv) {
                    kept + conv
                } else {
                    kept
                }
            } else {
                s
            }
        },
    }
}

/// The outcome one account's turn of a pass reports.
pub open spec fn account_pass_outcome(
    s: Seq<Transaction>,
    account_id: String,
    fetch: Result<Seq<true_layer::Transaction>, Error>,
    now: int,
) -> Result<SyncOutcome, Error> {
    match fetch {
        Result::Err(e) => Result::Err(e),
        Result::Ok(fresh) => {
            let ws = window_start_spec(now);
            let conv = convert_all_spec(fresh, account_id);
            if !has_tx(s, account_id@) {
                if unique_keys(s + conv) {
                    Result::Ok(SyncOutcome::FirstSync { inserted: fresh.len() as usize })
                } else {
                    Result::Err(Error::StoreError)
                }
            } else if changed_spec(fresh, strs_view(ids_of(window_txs(s, account_id@, ws)))) {
                if unique_keys(retained(s, account_id@, ws) + conv) {
                    Result::Ok(SyncOutcome::Refreshed { inserted: fresh.len() as usize })
                } else {
                    Result::Err(Error::StoreError)
                }
            } else {
                Result::Ok(SyncOutcome::NoChange)
            }
        },
    }
}

/// What a whole pass over the first `accounts` leaves stored, one account
/// at a time, in order.
pub open spec fn pass_fold(
    s: Seq<Transaction>,
    accounts: Seq<db::accounts::Account>,
    fetched: Seq<AccountFetch>,
    now: int,
) -> Seq<Transaction>
    decreases accounts.len(),
{
    if accounts.len() == 0 {
        s
    } else {
        let prev = pass_fold(s, accounts.drop_last(), fetched, now);
        account_pass_step(
            prev,
            accounts.last().id,
            find_fetch(fetched, accounts.last().id@),
            now,
        )
    }
}

/// Looks up the fetch outcome recorded for an account, copying it out.
fn lookup_fetch(fetched: &Vec<AccountFetch>, account: &String) -> (r: Result<
    Vec<true_layer::Transaction>,
    Error,
>)
    ensures
        r is Ok <==> find_fetch(fetched@, account@) is Ok,
        r matches Ok(v) ==> v@ == find_fetch(fetched@, account@)->Ok_0,
        r matches Err(e) ==> e == find_fetch(fetched@, account@)->Err_0,
{
    let mut i: usize = 0;
    proof {
        assert(fetched@.skip(0) =~= fetched@);
    }
    while i < fetched.len()
        invariant
            0 <= i <= fetched@.len(),
            find_fetch(fetched@.skip(i as int), account@) == find_fetch(fetched@, account@),
        decreases fetched@.len() - i,
    {
        let ghost pre = fetched@.skip(i as int);
        proof {
            assert(pre[0] == fetched@[i as int]);
        }
        if string_eq(&fetched[i].account_id, account) {
            return match &fetched[i].result {
                Ok(v) => Ok(true_layer::clone_transactions(v)),
                Err(e) => Err(crate::clone_error(e)),
            };
        }
        i += 1;
        proof {
            assert(pre.drop_first() =~= fetched@.skip(i as int));
        }
    }
    Err(Error::NetworkError)
}

/// Runs one reconciliation pass: every known account in order, each
/// against its recorded fetch outcome.  An account whose fetch failed, or
/// whose write the store refused, is reported in the outcomes and does
/// not stop the pass: the next account proceeds.
pub fn run_pass(db: &mut Db, fetched: &Vec<AccountFetch>, now: i64) -> (outcomes: Vec<
    Result<SyncOutcome, Error>,
>)
    requires
        old(db).wf(),
        now - SYNC_WINDOW_SECS >= i64::MIN,
    ensures
        final(db).wf(),
        final(db).providers@ == old(db).providers@,
        final(db).accounts@ == old(db).accounts@,
        final(db).transactions@ == pass_fold(
            old(db).transactions@,
            old(db).accounts@,
            fetched@,
            now as int,
        ),
        outcomes@.len() == old(db).accounts@.len(),
        forall|j: int|
            0 <= j < outcomes@.len() ==> outcomes@[j] == account_pass_outcome(
                pass_fold(old(db).transactions@, old(db).accounts@.take(j), fetched@, now as int),
                old(db).accounts@[j].id,
                find_fetch(fetched@, old(db).accounts@[j].id@),
                now as int,
            ),
{
    let ghost s0 = old(db).transactions@;
    let ghost accounts0 = old(db).accounts@;
    let mut outcomes: Vec<Result<SyncOutcome, Error>> = Vec::new();
    let mut i: usize = 0;
    while i < db.accounts.len()
        invariant
            0 <= i <= accounts0.len(),
            db.wf(),
            db.accounts@ == accounts0,
            db.providers@ == old(db).providers@,
            db.transactions@ == pass_fold(s0, accounts0.take(i as int), fetched@, now as int),
            outcomes@.len() == i,
            forall|j: int|
                0 <= j < i ==> outcomes@[j] == account_pass_outcome(
                    pass_fold(s0, accounts0.take(j), fetched@, now as int),
                    accounts0[j].id,
                    find_fetch(fetched@, accounts0[j].id@),
                    now as int,
                ),
        decreases accounts0.len() - i,
    {
        let ghost before = db.transactions@;
        let account_id = db.accounts[i].id.clone();
        match lookup_fetch(fetched, &account_id) {
            Ok(fresh) => {
                let ghost fresh_seq = fresh@;
                let res = sync_account(db, &account_id, now, fresh);
                proof {
                    assert(res == account_pass_outcome(
                        before,
                        accounts0[i as int].id,
                        find_fetch(fetched@, accounts0[i as int].id@),
                        now as int,
                    ));
                    assert(db.transactions@ == account_pass_step(
                        before,
                        accounts0[i as int].id,
                        find_fetch(fetched@, accounts0[i as int].id@),
                        now as int,
                    ));
                }
                outcomes.push(res);
            },
            Err(e) => {
                outcomes.push(Err(e));
            },
        }
        i += 1;
        proof {
            assert(accounts0.take(i as int).drop_last() =~= accounts0.take(i as int - 1));
            assert(accounts0.take(i as int).last() == accounts0[i as int - 1]);
        }
    }
    proof {
        assert(accounts0.take(accounts0.len() as int) =~= accounts0);
    }
    outcomes
}

} // verus!
