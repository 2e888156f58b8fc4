//! The `transactions` table: the volatile, synchronized dataset.

use vstd::prelude::*;

use super::Db;
use crate::amount::Amount;
use crate::text::string_eq;
use crate::text::clone_opt_string;
use crate::Error;

verus! {

/// How many rows one bulk insert statement carries at most.
pub const BATCH_SIZE: usize = 100;

/// One stored transaction row.  The timestamp is seconds since the Unix
/// epoch; the amount is an exact decimal.
#[derive(Debug, PartialEq)]
pub struct Transaction {
    pub id: String,
    pub account_id: String,
    pub timestamp: i64,
    pub amount: Amount,
    pub currency: String,
    pub transaction_type: Option<String>,
    pub category: Option<String>,
    pub description: Option<String>,
    pub merchant_name: Option<String>,
}

/// The key that identifies a row: `(account_id, id)`.
pub open spec fn tx_key(t: Transaction) -> (Seq<char>, Seq<char>) {
    (t.account_id@, t.id@)
}

/// Row keys are pairwise distinct.
pub open spec fn unique_keys(s: Seq<Transaction>) -> bool {
    forall|i: int, j: int| 0 <= i < j < s.len() ==> tx_key(s[i]) != tx_key(s[j])
}

/// Some row in `s` belongs to the given account.
pub open spec fn has_tx(s: Seq<Transaction>, account: Seq<char>) -> bool {
    exists|i: int| 0 <= i < s.len() && s[i].account_id@ == account
}

/// Whether a row belongs to the given account and is dated at or after
/// `since`.
pub open spec fn in_window(t: Transaction, account: Seq<char>, since: int) -> bool {
    t.account_id@ == account && t.timestamp >= since
}

/// The rows of the given account, in store order.
pub open spec fn txs_of(s: Seq<Transaction>, account: Seq<char>) -> Seq<Transaction> {
    s.filter(|t: Transaction| t.account_id@ == account)
}

/// The rows of the given account dated at or after `since`, in store
/// order.
pub open spec fn window_txs(s: Seq<Transaction>, account: Seq<char>, since: int) -> Seq<
    Transaction,
> {
    s.filter(|t: Transaction| in_window(t, account, since))
}

/// The rows that a window deletion for the given account keeps: everything
/// except that account's rows dated at or after `since`.
pub open spec fn retained(s: Seq<Transaction>, account: Seq<char>, since: int) -> Seq<
    Transaction,
> {
    s.filter(|t: Transaction| !in_window(t, account, since))
}

/// The ids of the rows in `s`, in order.
pub open spec fn ids_of(s: Seq<Transaction>) -> Seq<String> {
    s.map_values(|t: Transaction| t.id)
}

/// A window deletion keeps row keys pairwise distinct.
pub proof fn lemma_retained_unique(s: Seq<Transaction>, account: Seq<char>, since: int)
    requires
        unique_keys(s),
    ensures
        unique_keys(retained(s, account, since)),
    decreases s.len(),
{
    reveal(Seq::filter);
    if s.len() > 0 {
        let rest = s.drop_last();
        assert(unique_keys(rest)) by {
            assert(forall|i: int, j: int|
                0 <= i < j < rest.len() ==> tx_key(#[trigger] rest[i]) != tx_key(
                    #[trigger] rest[j],
                ));
        }
        lemma_retained_unique(rest, account, since);
        let out = retained(s, account, since);
        let prev = retained(rest, account, since);
        if !in_window(s.last(), account, since) {
            assert(out == prev.push(s.last()));
            assert forall|a: int, b: int| 0 <= a < b < out.len() implies tx_key(out[a]) != tx_key(
                out[b],
            ) by {
                if b == out.len() - 1 {
                    assert(prev.contains(prev[a]));
                    Seq::lemma_filter_contains_rev(
                        rest,
                        |t: Transaction| !in_window(t, account, since),
                        prev[a],
                    );
                    let k = choose|k: int| 0 <= k < rest.len() && rest[k] == prev[a];
                    assert(tx_key(s[k]) != tx_key(s[s.len() - 1]));
                }
            }
        }
    }
}

/// Clones a transaction row.
pub fn clone_transaction(t: &Transaction) -> (r: Transaction)
    ensures
        r == *t,
{
    Transaction {
        id: t.id.clone(),
        account_id: t.account_id.clone(),
        timestamp: t.timestamp,
        amount: t.amount,
        currency: t.currency.clone(),
        transaction_type: clone_opt_string(&t.transaction_type),
        category: clone_opt_string(&t.category),
        description: clone_opt_string(&t.description),
        merchant_name: clone_opt_string(&t.merchant_name),
    }
}

/// Whether two rows carry the same `(account_id, id)` key.
pub fn same_key(a: &Transaction, b: &Transaction) -> (r: bool)
    ensures
        r == (tx_key(*a) == tx_key(*b)),
{
    string_eq(&a.account_id, &b.account_id) && string_eq(&a.id, &b.id)
}

/// Returns true if there are any recorded transactions for the specified
/// account.
pub fn has_any(db: &Db, account: &String) -> (r: bool)
    ensures
        r == has_tx(db.transactions@, account@),
{
    let mut i: usize = 0;
    while i < db.transactions.len()
        invariant
            0 <= i <= db.transactions@.len(),
            forall|j: int| 0 <= j < i ==> db.transactions@[j].account_id@ != account@,
        decreases db.transactions@.len() - i,
    {
        if string_eq(&db.transactions[i].account_id, account) {
            return true;
        }
        i += 1;
    }
    false
}

/// Returns all transactions for the given account.
pub fn all(db: &Db, account: &String) -> (r: Vec<Transaction>)
    ensures
        r@ == txs_of(db.transactions@, account@),
{
    let mut r: Vec<Transaction> = Vec::new();
    let mut i: usize = 0;
    while i < db.transactions.len()
        invariant
            0 <= i <= db.transactions@.len(),
            r@ == txs_of(db.transactions@.take(i as int), account@),
        decreases db.transactions@.len() - i,
    {
        let ghost pre = db.transactions@.take(i as int);
        let t = &db.transactions[i];
        if string_eq(&t.account_id, account) {
            r.push(clone_transaction(t));
        }
        i += 1;
        proof {
            let cur = db.transactions@.take(i as int);
            assert(cur.drop_last() =~= pre);
            assert(cur.last() == db.transactions@[i - 1]);
            reveal(Seq::filter);
            assert(r@ == txs_of(cur, account@));
        }
    }
    proof {
        assert(db.transactions@.take(db.transactions@.len() as int) =~= db.transactions@);
    }
    r
}

/// Returns the ids of all of the account's transactions made at or after
/// the specified timestamp.
pub fn ids_after(db: &Db, account: &String, timestamp: i64) -> (r: Vec<String>)
    ensures
        r@ == ids_of(window_txs(db.transactions@, account@, timestamp as int)),
{
    let mut r: Vec<String> = Vec::new();
    let mut i: usize = 0;
    while i < db.transactions.len()
        invariant
            0 <= i <= db.transactions@.len(),
            r@ == ids_of(window_txs(db.transactions@.take(i as int), account@, timestamp as int)),
        decreases db.transactions@.len() - i,
    {
        let ghost pre = db.transactions@.take(i as int);
        let t = &db.transactions[i];
        if string_eq(&t.account_id, account) && t.timestamp >= timestamp {
            r.push(t.id.clone());
        }
        i += 1;
        proof {
            let cur = db.transactions@.take(i as int);
            assert(cur.drop_last() =~= pre);
            assert(cur.last() == db.transactions@[i - 1]);
            reveal(Seq::filter);
            let wpre = window_txs(pre, account@, timestamp as int);
            let wcur = window_txs(cur, account@, timestamp as int);
            if in_window(db.transactions@[i - 1], account@, timestamp as int) {
                assert(wcur == wpre.push(db.transactions@[i - 1]));
                assert(ids_of(wcur) =~= ids_of(wpre).push(db.transactions@[i - 1].id));
            } else {
                assert(wcur == wpre);
            }
        }
    }
    proof {
        assert(db.transactions@.take(db.transactions@.len() as int) =~= db.transactions@);
    }
    r
}

/// Inserts multiple transaction records.  The write is refused as a whole
/// when any row's `(account_id, id)` key collides with a stored row or
/// with another row of the argument, as the unique key on the real table
/// makes it fail.
pub fn insert_many(db: &mut Db, txs: Vec<Transaction>) -> (r: Result<(), Error>)
    requires
        old(db).wf(),
    ensures
        final(db).wf(),
        final(db).providers@ == old(db).providers@,
        final(db).accounts@ == old(db).accounts@,
        r is Ok <==> unique_keys(old(db).transactions@ + txs@),
        r is Ok ==> final(db).transactions@ == old(db).transactions@ + txs@,
        r is Err ==> final(db).transactions@ == old(db).transactions@ && r->Err_0
            == Error::StoreError,
{
    let ghost s0 = db.transactions@;
    let mut i: usize = 0;
    while i < txs.len()
        invariant
            0 <= i <= txs@.len(),
            db.transactions@ == s0,
            forall|a: int, b: int|
                0 <= a < s0.len() && 0 <= b < i ==> #[trigger] tx_key(s0[a]) != #[trigger] tx_key(
                    txs@[b],
                ),
            forall|a: int, b: int|
                0 <= a < b < i ==> #[trigger] tx_key(txs@[a]) != #[trigger] tx_key(txs@[b]),
        decreases txs@.len() - i,
    {
        let mut j: usize = 0;
        while j < db.transactions.len()
            invariant
                0 <= j <= db.transactions@.len(),
                db.transactions@ == s0,
                0 <= i < txs@.len(),
                forall|a: int| 0 <= a < j ==> tx_key(s0[a]) != tx_key(txs@[i as int]),
            decreases db.transactions@.len() - j,
        {
            if same_key(&db.transactions[j], &txs[i]) {
                proof {
                    let whole = s0 + txs@;
                    assert(whole[j as int] == s0[j as int]);
                    assert(whole[s0.len() + i] == txs@[i as int]);
                }
                return Err(Error::StoreError);
            }
            j += 1;
        }
        let mut k: usize = 0;
        while k < i
            invariant
                0 <= k <= i < txs@.len(),
                db.transactions@ == s0,
                forall|a: int| 0 <= a < k ==> tx_key(#[trigger] txs@[a]) != tx_key(txs@[i as int]),
            decreases i - k,
        {
            if same_key(&txs[k], &txs[i]) {
                proof {
                    let whole = s0 + txs@;
                    assert(whole[s0.len() + k] == txs@[k as int]);
                    assert(whole[s0.len() + i] == txs@[i as int]);
                }
                return Err(Error::StoreError);
            }
            k += 1;
        }
        i += 1;
    }
    proof {
        let whole = s0 + txs@;
        assert forall|a: int, b: int| 0 <= a < b < whole.len() implies tx_key(whole[a]) != tx_key(
            whole[b],
        ) by {
            if b < s0.len() {
                assert(whole[a] == s0[a] && whole[b] == s0[b]);
            } else if a < s0.len() {
                assert(whole[a] == s0[a] && whole[b] == txs@[b - s0.len()]);
            } else {
                assert(whole[a] == txs@[a - s0.len()] && whole[b] == txs@[b - s0.len()]);
            }
        }
    }
    let mut n: usize = 0;
    while n < txs.len()
        invariant
            0 <= n <= txs@.len(),
            db.transactions@ == s0 + txs@.take(n as int),
            db.providers@ == old(db).providers@,
            db.accounts@ == old(db).accounts@,
        decreases txs@.len() - n,
    {
        db.transactions.push(clone_transaction(&txs[n]));
        n += 1;
        proof {
            assert(db.transactions@ =~= s0 + txs@.take(n as int));
        }
    }
    proof {
        assert(txs@.take(txs@.len() as int) =~= txs@);
    }
    Ok(())
}

/// Deletes all transactions from the store.
pub fn delete_all(db: &mut Db)
    requires
        old(db).wf(),
    ensures
        final(db).wf(),
        final(db).providers@ == old(db).providers@,
        final(db).accounts@ == old(db).accounts@,
        final(db).transactions@ == Seq::<Transaction>::empty(),
{
    db.transactions = Vec::new();
}

/// Deletes all of the account's transactions made at or after the given
/// timestamp.
pub fn delete_after(db: &mut Db, account: &String, timestamp: i64)
    requires
        old(db).wf(),
    ensures
        final(db).wf(),
        final(db).providers@ == old(db).providers@,
        final(db).accounts@ == old(db).accounts@,
        final(db).transactions@ == retained(old(db).transactions@, account@, timestamp as int),
{
    let ghost s0 = db.transactions@;
    let mut kept: Vec<Transaction> = Vec::new();
    let mut i: usize = 0;
    while i < db.transactions.len()
        invariant
            0 <= i <= db.transactions@.len(),
            db.transactions@ == s0,
            kept@ == retained(s0.take(i as int), account@, timestamp as int),
        decreases db.transactions@.len() - i,
    {
        let ghost pre = s0.take(i as int);
        let t = &db.transactions[i];
        if !(string_eq(&t.account_id, account) && t.timestamp >= timestamp) {
            kept.push(clone_transaction(t));
        }
        i += 1;
        proof {
            let cur = s0.take(i as int);
            assert(cur.drop_last() =~= pre);
            assert(cur.last() == s0[i - 1]);
            reveal(Seq::filter);
            assert(kept@ == retained(cur, account@, timestamp as int));
        }
    }
    proof {
        assert(s0.take(s0.len() as int) =~= s0);
        lemma_retained_unique(s0, account@, timestamp as int);
    }
    db.transactions = kept;
}

/// The sizes of the batches a bulk insert of `n` rows is split into:
/// full batches of [`BATCH_SIZE`] and a final partial one.
pub open spec fn batch_sizes_spec(n: int) -> Seq<int>
    decreases n,
{
    if n <= 0 {
        Seq::empty()
    } else if n <= BATCH_SIZE {
        seq![n]
    } else {
        seq![BATCH_SIZE as int] + batch_sizes_spec(n - BATCH_SIZE)
    }
}

/// Splits a bulk insert of `n` rows into batch sizes: all but the last
/// are exactly [`BATCH_SIZE`], and together they cover all `n` rows.
pub fn batch_sizes(n: usize) -> (r: Vec<usize>)
    ensures
        r@.map_values(|x: usize| x as int) == batch_sizes_spec(n as int),
{
    let mut r: Vec<usize> = Vec::new();
    let mut left: usize = n;
    while left > BATCH_SIZE
        invariant
            left <= n,
            r@.map_values(|x: usize| x as int) + batch_sizes_spec(left as int) == batch_sizes_spec(
                n as int,
            ),
        decreases left,
    {
        r.push(BATCH_SIZE);
        left = left - BATCH_SIZE;
        proof {
            assert(r@.map_values(|x: usize| x as int) + batch_sizes_spec(left as int)
                =~= batch_sizes_spec(n as int));
        }
    }
    if left > 0 {
        r.push(left);
    }
    proof {
        assert(r@.map_values(|x: usize| x as int) =~= batch_sizes_spec(n as int));
    }
    r
}

/// The placeholders of one insert row, nine columns wide: the first `j`
/// of `$k` for `k` counted from `row * 9 + 1`, comma-separated.
pub open spec fn placeholders_row(row: int, j: int) -> Seq<char>
    decreases j,
{
    if j <= 1 {
        seq!['$'] + crate::text::dec_seq((row * 9 + 1) as nat)
    } else {
        placeholders_row(row, j - 1) + ", "@ + seq!['$'] + crate::text::dec_seq(
            (row * 9 + j) as nat,
        )
    }
}

/// One parenthesized row group of an insert statement.
pub open spec fn row_group(row: int) -> Seq<char> {
    " ("@ + placeholders_row(row, 9) + ")"@
}

/// The row groups of an insert statement of `rows` rows, comma-joined.
pub open spec fn row_groups(rows: int) -> Seq<char>
    decreases rows,
{
    if rows <= 1 {
        row_group(0)
    } else {
        row_groups(rows - 1) + ","@ + row_group(rows - 1)
    }
}

/// The bulk insert statement for `rows` rows.
pub open spec fn insert_statement_spec(rows: int) -> Seq<char> {
    "INSERT INTO transactions (id, account_id, timestamp, amount, currency, type, category, description, merchant_name) VALUES"@
        + row_groups(rows)
}

/// Builds the bulk insert statement for one batch of `rows` rows: nine
/// placeholders per row, numbered consecutively so that row and
/// placeholder stay aligned.
pub fn insert_statement(rows: usize) -> (r: String)
    requires
        1 <= rows <= BATCH_SIZE,
    ensures
        r@ == insert_statement_spec(rows as int),
{
    proof {
        reveal_strlit(" (");
        reveal_strlit(")");
        reveal_strlit(",");
        reveal_strlit(", ");
        reveal_strlit("$");
    }
    let mut sql = String::from_str(
        "INSERT INTO transactions (id, account_id, timestamp, amount, currency, type, category, description, merchant_name) VALUES",
    );
    let ghost prefix = sql@;
    let mut row: usize = 0;
    while row < rows
        invariant
            0 <= row <= rows,
            1 <= rows <= BATCH_SIZE,
            row == 0 ==> sql@ == prefix,
            row > 0 ==> sql@ == prefix + row_groups(row as int),
        decreases rows - row,
    {
        if row > 0 {
            sql.append(",");
        }
        let ghost g0 = sql@;
        let base: usize = row * 9;
        sql.append(" (");
        sql.append("$");
        let first = crate::text::u64_to_string((base + 1) as u64);
        sql.append(first.as_str());
        proof {
            assert(sql@ =~= g0 + " ("@ + placeholders_row(row as int, 1));
        }
        let mut j: usize = 2;
        while j <= 9
            invariant
                2 <= j <= 10,
                base == row * 9,
                row < rows <= BATCH_SIZE,
                sql@ == g0 + " ("@ + placeholders_row(row as int, j as int - 1),
            decreases 10 - j,
        {
            sql.append(", ");
            sql.append("$");
            let num = crate::text::u64_to_string((base + j) as u64);
            sql.append(num.as_str());
            j += 1;
            proof {
                assert(sql@ =~= g0 + " ("@ + placeholders_row(row as int, j as int - 1));
            }
        }
        sql.append(")");
        proof {
            assert(sql@ =~= g0 + row_group(row as int));
        }
        row += 1;
        proof {
            if row == 1 {
                assert(sql@ == prefix + row_groups(1));
            } else {
                assert(sql@ =~= prefix + row_groups(row as int));
            }
        }
    }
    sql
}

} // verus!
