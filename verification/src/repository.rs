//! The two repository operations on the `transactions` table.
//!
//! Each operation is one statement. This module says which statement is sent
//! and what the operation returns for every reply of storage; sending the
//! statement over a pooled connection is the caller's part. A reply is either
//! the rows that the statement returned or the description of a failure to
//! connect or to execute.

use vstd::prelude::*;
use crate::error::{ErrorView, RepositoryError};
use crate::model::{
    is_storable, record_of, row_is_record, row_of, Row, Transaction, TransactionView, ValueView,
};

verus! {

/// Selects all ten columns of every row, in no stated order.
pub const SELECT_SQL: &'static str =
    "SELECT id, datetime, trx_type, trx_subtype, wallet_from, wallet_to, name, amount, fee, description FROM transactions";

/// Inserts one row from ten parameters and returns the row as stored.
pub const INSERT_SQL: &'static str =
    "INSERT INTO transactions(id, datetime, trx_type, trx_subtype, wallet_from, wallet_to, name, amount, fee, description) VALUES ($1, $2, $3, $4, $5, $6, $7, $8, $9, $10) RETURNING id, datetime, trx_type, trx_subtype, wallet_from, wallet_to, name, amount, fee, description";

/// A statement to send to storage: its text and its parameters in order.
#[derive(Debug, PartialEq, Eq)]
pub struct Statement {
    pub sql: &'static str,
    pub params: Row,
}

/// Model of the rows of a reply.
pub open spec fn rows_view(rows: Seq<Row>) -> Seq<Seq<ValueView>> {
    rows.map_values(|row: Row| row@)
}

/// Model of a reply of storage.
pub open spec fn reply_view(reply: Result<Vec<Row>, String>) -> Result<Seq<Seq<ValueView>>, Seq<char>> {
    match reply {
        Ok(rows) => Ok(rows_view(rows@)),
        Err(description) => Err(description@),
    }
}

/// Model of a list of transactions.
pub open spec fn transactions_view(list: Seq<Transaction>) -> Seq<TransactionView> {
    list.map_values(|t: Transaction| t@)
}

/// Model of the result of listing.
pub open spec fn list_result_view(result: Result<Vec<Transaction>, RepositoryError>) -> Result<
    Seq<TransactionView>,
    ErrorView,
> {
    match result {
        Ok(list) => Ok(transactions_view(list@)),
        Err(e) => Err(e@),
    }
}

/// Model of the result of adding.
pub open spec fn add_result_view(result: Result<Transaction, RepositoryError>) -> Result<
    TransactionView,
    ErrorView,
> {
    match result {
        Ok(t) => Ok(t@),
        Err(e) => Err(e@),
    }
}

/// Every row holds a transaction.
pub open spec fn all_records(rows: Seq<Seq<ValueView>>) -> bool {
    forall|i: int| 0 <= i < rows.len() ==> row_is_record(#[trigger] rows[i])
}

/// A reply whose rows, if it has any, all hold transactions.
pub open spec fn is_readable(reply: Result<Seq<Seq<ValueView>>, Seq<char>>) -> bool {
    reply matches Ok(rows) ==> all_records(rows)
}

/// The transactions that rows hold, row by row.
pub open spec fn records_of(rows: Seq<Seq<ValueView>>) -> Seq<TransactionView> {
    rows.map_values(|row: Seq<ValueView>| record_of(row))
}

/// The rows that store transactions, one by one.
pub open spec fn rows_of(list: Seq<TransactionView>) -> Seq<Seq<ValueView>> {
    list.map_values(|t: TransactionView| row_of(t))
}

/// What listing returns for a reply: a failure as a storage error, rows as
/// the transactions they hold, none as the empty list.
pub open spec fn listed(reply: Result<Seq<Seq<ValueView>>, Seq<char>>) -> Result<
    Seq<TransactionView>,
    ErrorView,
> {
    match reply {
        Ok(rows) => Ok(records_of(rows)),
        Err(description) => Err(ErrorView::Storage(description)),
    }
}

/// What adding returns for a reply: a failure as a storage error, no row as
/// `NotFound`, else the transaction of the last row.
pub open spec fn added(reply: Result<Seq<Seq<ValueView>>, Seq<char>>) -> Result<
    TransactionView,
    ErrorView,
> {
    match reply {
        Ok(rows) => if rows.len() == 0 {
            Err(ErrorView::NotFound)
        } else {
            Ok(record_of(rows.last()))
        },
        Err(description) => Err(ErrorView::Storage(description)),
    }
}

/// The statement that lists the transactions: the select, without parameters.
pub fn select_statement() -> (statement: Statement)
    ensures
        statement.sql@ == SELECT_SQL@,
        statement.params@ == Seq::<ValueView>::empty(),
{
    let statement = Statement { sql: SELECT_SQL, params: Row { cells: Vec::new() } };
    assert(statement.params@ =~= Seq::<ValueView>::empty());
    statement
}

/// The statement that adds a transaction: the insert, with the transaction's
/// row as its parameters.
pub fn insert_statement(transaction: &Transaction) -> (statement: Statement)
    ensures
        statement.sql@ == INSERT_SQL@,
        statement.params@ == row_of(transaction@),
        row_is_record(statement.params@),
        record_of(statement.params@) == transaction@,
{
    Statement { sql: INSERT_SQL, params: transaction.to_row() }
}

/// Whether every row holds a transaction.
pub fn rows_are_records(rows: &Vec<Row>) -> (yes: bool)
    ensures
        yes == all_records(rows_view(rows@)),
{
    let mut i: usize = 0;
    while i < rows.len()
        invariant
            i <= rows.len(),
            forall|j: int| 0 <= j < i ==> row_is_record(#[trigger] rows_view(rows@)[j]),
        decreases rows.len() - i,
    {
        if !rows[i].is_record() {
            assert(!row_is_record(rows_view(rows@)[i as int]));
            return false;
        }
        i += 1;
    }
    true
}

/// Whether the rows of a reply, if it has any, all hold transactions.
pub fn reply_is_readable(reply: &Result<Vec<Row>, String>) -> (yes: bool)
    ensures
        yes == is_readable(reply_view(*reply)),
{
    match reply {
        Ok(rows) => rows_are_records(rows),
        Err(_) => true,
    }
}

/// Reads the transactions that rows hold, in the order of the rows.
pub fn read_rows(rows: &Vec<Row>) -> (list: Vec<Transaction>)
    requires
        all_records(rows_view(rows@)),
    ensures
        transactions_view(list@) == records_of(rows_view(rows@)),
{
    let mut list: Vec<Transaction> = Vec::with_capacity(rows.len());
    let mut i: usize = 0;
    while i < rows.len()
        invariant
            i <= rows.len(),
            all_records(rows_view(rows@)),
            list@.len() == i,
            forall|j: int| 0 <= j < i ==> (#[trigger] list@[j])@ == record_of(rows@[j]@),
        decreases rows.len() - i,
    {
        assert(row_is_record(rows_view(rows@)[i as int]));
        match Transaction::from_row(&rows[i]) {
            Some(t) => {
                list.push(t);
            },
            None => {
                assert(false);
            },
        }
        i += 1;
    }
    assert(transactions_view(list@) =~= records_of(rows_view(rows@)));
    list
}

/// The result of listing, given the reply to the select: every stored
/// transaction, in the order storage returned them; the empty list where
/// there is none; a storage error where the reply is a failure.
pub fn get_transactions(reply: Result<Vec<Row>, String>) -> (result: Result<
    Vec<Transaction>,
    RepositoryError,
>)
    requires
        is_readable(reply_view(reply)),
    ensures
        list_result_view(result) == listed(reply_view(reply)),
{
    match reply {
        Ok(rows) => Ok(read_rows(&rows)),
        Err(description) => Err(RepositoryError::Storage(description)),
    }
}

/// The result of adding, given the reply to the insert: the transaction as
/// stored; a storage error where the reply is a failure (a duplicate id
/// among them); `NotFound` where the insert succeeded and returned no row.
pub fn add_transaction(reply: Result<Vec<Row>, String>) -> (result: Result<
    Transaction,
    RepositoryError,
>)
    requires
        is_readable(reply_view(reply)),
    ensures
        add_result_view(result) == added(reply_view(reply)),
{
    match reply {
        Ok(rows) => {
            let mut list = read_rows(&rows);
            let ghost all = list@;
            proof {
                let held = records_of(rows_view(rows@));
                assert(transactions_view(all).len() == all.len());
                assert(held.len() == rows_view(rows@).len());
                if all.len() > 0 {
                    assert(transactions_view(all)[all.len() - 1] == all[all.len() - 1]@);
                    assert(held[all.len() - 1] == record_of(rows_view(rows@).last()));
                }
            }
            match list.pop() {
                Some(t) => Ok(t),
                None => Err(RepositoryError::NotFound),
            }
        },
        Err(description) => Err(RepositoryError::Storage(description)),
    }
}

/// Round trip of an insert: where storage answers the insert of a
/// transaction with the row that was sent, adding returns that transaction,
/// field for field.
pub proof fn insert_round_trip(t: TransactionView)
    requires
        is_storable(t),
    ensures
        is_readable(Ok(seq![row_of(t)])),
        added(Ok(seq![row_of(t)])) == Ok::<TransactionView, ErrorView>(t),
{
    assert(seq![row_of(t)].last() == row_of(t));
}

/// Completeness of a listing: where storage answers the select with the rows
/// of the transactions that it holds, listing returns exactly those
/// transactions, however many there are.
pub proof fn list_complete(stored: Seq<TransactionView>)
    requires
        forall|i: int| 0 <= i < stored.len() ==> is_storable(#[trigger] stored[i]),
    ensures
        is_readable(Ok(rows_of(stored))),
        listed(Ok(rows_of(stored))) == Ok::<Seq<TransactionView>, ErrorView>(stored),
{
    assert forall|i: int| 0 <= i < rows_of(stored).len() implies row_is_record(
        #[trigger] rows_of(stored)[i],
    ) by {
        assert(is_storable(stored[i]));
    }
    assert(records_of(rows_of(stored)) =~= stored) by {
        assert forall|i: int| 0 <= i < stored.len() implies records_of(rows_of(stored))[i]
            == stored[i] by {
            assert(is_storable(stored[i]));
        }
    }
}

/// Applying one function to every item of two sequences that hold the same
/// items, each as often, gives two sequences that again hold the same items.
proof fn mapped_permutation<A, B>(a: Seq<A>, b: Seq<A>, f: spec_fn(A) -> B)
    requires
        a.to_multiset() == b.to_multiset(),
    ensures
        a.map_values(f).to_multiset() == b.map_values(f).to_multiset(),
    decreases a.len(),
{
    broadcast use vstd::seq_lib::group_to_multiset_ensures;

    let mapped_a = a.map_values(f);
    let mapped_b = b.map_values(f);
    assert(a.len() == a.to_multiset().len());
    assert(b.len() == b.to_multiset().len());
    if a.len() == 0 {
        assert(mapped_a =~= mapped_b);
    } else {
        let last = a.len() - 1;
        let x = a[last];
        assert(a.contains(x));
        assert(a.to_multiset().count(x) > 0);
        assert(b.to_multiset().count(x) > 0);
        assert(b.contains(x));
        let i = choose|i: int| 0 <= i < b.len() && b[i] == x;
        let rest_a = a.remove(last);
        let rest_b = b.remove(i);
        assert(rest_a.to_multiset() == a.to_multiset().remove(x));
        assert(rest_b.to_multiset() == b.to_multiset().remove(x));
        mapped_permutation(rest_a, rest_b, f);
        assert(mapped_a.remove(last) =~= rest_a.map_values(f));
        assert(mapped_b.remove(i) =~= rest_b.map_values(f));
        assert(mapped_a[last] == f(x));
        assert(mapped_b[i] == f(x));
        assert(mapped_a.contains(f(x)));
        assert(mapped_b.contains(f(x)));
        assert(mapped_a.remove(last).to_multiset() == mapped_a.to_multiset().remove(f(x)));
        assert(mapped_b.remove(i).to_multiset() == mapped_b.to_multiset().remove(f(x)));
        assert(mapped_a.to_multiset().count(f(x)) > 0);
        assert(mapped_b.to_multiset().count(f(x)) > 0);
        assert(mapped_a.to_multiset() =~= mapped_a.to_multiset().remove(f(x)).insert(f(x)));
        assert(mapped_b.to_multiset() =~= mapped_b.to_multiset().remove(f(x)).insert(f(x)));
    }
}

/// Completeness of a listing in any order: where storage answers the select
/// with the rows of the transactions that it holds, in whatever order,
/// listing returns exactly those transactions, each as often as it is
/// stored.
pub proof fn list_complete_in_any_order(
    rows: Seq<Seq<ValueView>>,
    stored: Seq<TransactionView>,
)
    requires
        forall|i: int| 0 <= i < stored.len() ==> is_storable(#[trigger] stored[i]),
        rows.to_multiset() == rows_of(stored).to_multiset(),
    ensures
        is_readable(Ok(rows)),
        listed(Ok(rows)) matches Ok(list) && list.len() == stored.len() && list.to_multiset()
            == stored.to_multiset(),
{
    broadcast use vstd::seq_lib::group_to_multiset_ensures;

    list_complete(stored);
    assert forall|i: int| 0 <= i < rows.len() implies row_is_record(#[trigger] rows[i]) by {
        assert(rows.contains(rows[i]));
        assert(rows.to_multiset().count(rows[i]) > 0);
        assert(rows_of(stored).to_multiset().count(rows[i]) > 0);
        assert(rows_of(stored).contains(rows[i]));
        let j = choose|j: int| 0 <= j < rows_of(stored).len() && rows_of(stored)[j] == rows[i];
        assert(row_is_record(rows_of(stored)[j]));
    }
    mapped_permutation(rows, rows_of(stored), |row: Seq<ValueView>| record_of(row));
    assert(records_of(rows_of(stored)) == stored);
    assert(rows.len() == rows.to_multiset().len());
    assert(rows_of(stored).len() == rows_of(stored).to_multiset().len());
}

/// A failure of storage is never taken for success: whatever it describes,
/// listing and adding both fail with a storage error that carries the
/// description.
pub proof fn failure_is_storage_error(description: Seq<char>)
    ensures
        is_readable(Err(description)),
        listed(Err(description)) == Err::<Seq<TransactionView>, ErrorView>(
            ErrorView::Storage(description),
        ),
        added(Err(description)) == Err::<TransactionView, ErrorView>(
            ErrorView::Storage(description),
        ),
{
}

} // verus!
