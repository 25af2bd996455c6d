//! The two HTTP operations on `/transactions`.
//!
//! `GET` lists the transactions and `POST` adds one. Each handler is given
//! the reply of storage to the statement of its operation and says which
//! response goes out: its status and what its body holds. Requests share no
//! state, so a response depends on the reply alone.

use vstd::prelude::*;
use crate::error::{status_of, ErrorView, RepositoryError, STATUS_OK};
use crate::model::{is_storable, row_of, Row, Transaction, TransactionView, ValueView};
use crate::repository::{
    add_result_view, added, insert_round_trip, is_readable, list_complete, list_result_view,
    listed, reply_view, rows_of, transactions_view,
};

verus! {

/// What the body of a response holds.
#[derive(Debug, PartialEq, Eq)]
pub enum Body {
    /// The array of all transactions; empty where there is none.
    Transactions(Vec<Transaction>),
    /// One transaction, as stored.
    Transaction(Transaction),
    /// The failure that the response reports.
    Failure(RepositoryError),
}

/// Mathematical model of a [`Body`].
pub enum BodyView {
    Transactions(Seq<TransactionView>),
    Transaction(TransactionView),
    Failure(ErrorView),
}

impl View for Body {
    type V = BodyView;

    open spec fn view(&self) -> BodyView {
        match *self {
            Body::Transactions(list) => BodyView::Transactions(transactions_view(list@)),
            Body::Transaction(t) => BodyView::Transaction(t@),
            Body::Failure(e) => BodyView::Failure(e@),
        }
    }
}

/// An HTTP response: its status and its body.
#[derive(Debug, PartialEq, Eq)]
pub struct Response {
    pub status: u16,
    pub body: Body,
}

/// Mathematical model of a [`Response`].
pub struct ResponseView {
    pub status: int,
    pub body: BodyView,
}

impl View for Response {
    type V = ResponseView;

    open spec fn view(&self) -> ResponseView {
        ResponseView { status: self.status as int, body: self.body@ }
    }
}

/// The response that reports a failure: the error's status, and the error
/// as the body.
pub open spec fn failure_response(e: ErrorView) -> ResponseView {
    ResponseView { status: status_of(e), body: BodyView::Failure(e) }
}

/// The response to `GET /transactions` for a result of listing.
pub open spec fn list_response(result: Result<Seq<TransactionView>, ErrorView>) -> ResponseView {
    match result {
        Ok(list) => ResponseView { status: STATUS_OK as int, body: BodyView::Transactions(list) },
        Err(e) => failure_response(e),
    }
}

/// The response to `POST /transactions` for a result of adding.
pub open spec fn add_response(result: Result<TransactionView, ErrorView>) -> ResponseView {
    match result {
        Ok(t) => ResponseView { status: STATUS_OK as int, body: BodyView::Transaction(t) },
        Err(e) => failure_response(e),
    }
}

/// The response that reports a failure of the repository.
pub fn respond_failure(error: RepositoryError) -> (response: Response)
    ensures
        response@ == failure_response(error@),
{
    let status = error.status();
    Response { status, body: Body::Failure(error) }
}

/// The response that carries a result of listing: 200 with the array of
/// transactions, or the failure's response.
pub fn respond_list(result: Result<Vec<Transaction>, RepositoryError>) -> (response: Response)
    ensures
        response@ == list_response(list_result_view(result)),
{
    match result {
        Ok(list) => Response { status: STATUS_OK, body: Body::Transactions(list) },
        Err(error) => respond_failure(error),
    }
}

/// The response that carries a result of adding: 200 with the stored
/// transaction, or the failure's response.
pub fn respond_add(result: Result<Transaction, RepositoryError>) -> (response: Response)
    ensures
        response@ == add_response(add_result_view(result)),
{
    match result {
        Ok(t) => Response { status: STATUS_OK, body: Body::Transaction(t) },
        Err(error) => respond_failure(error),
    }
}

/// `GET /transactions`, given the reply of storage to the select: 200 with
/// every stored transaction (an empty array where there is none), or 500
/// with the storage error.
pub fn get_transactions(reply: Result<Vec<Row>, String>) -> (response: Response)
    requires
        is_readable(reply_view(reply)),
    ensures
        response@ == list_response(listed(reply_view(reply))),
{
    respond_list(crate::repository::get_transactions(reply))
}

/// `POST /transactions`, given the reply of storage to the insert: 200 with
/// the transaction as stored, or 500 with the error (a storage error, or
/// `NotFound` where the insert returned no row).
pub fn add_transaction(reply: Result<Vec<Row>, String>) -> (response: Response)
    requires
        is_readable(reply_view(reply)),
    ensures
        response@ == add_response(added(reply_view(reply))),
{
    respond_add(crate::repository::add_transaction(reply))
}

/// Round trip over HTTP: where storage answers the insert of a transaction
/// with the row that was sent, the response is 200 and its body is that
/// transaction, field for field.
pub proof fn post_returns_what_was_sent(t: TransactionView)
    requires
        is_storable(t),
    ensures
        add_response(added(Ok(seq![row_of(t)]))) == (ResponseView {
            status: 200,
            body: BodyView::Transaction(t),
        }),
{
    insert_round_trip(t);
}

/// Completeness over HTTP: where storage answers the select with the rows of
/// the transactions that it holds, the response is 200 and its body is the
/// array of exactly those transactions; the empty array where it holds none.
pub proof fn get_returns_what_is_stored(stored: Seq<TransactionView>)
    requires
        forall|i: int| 0 <= i < stored.len() ==> is_storable(#[trigger] stored[i]),
    ensures
        list_response(listed(Ok(rows_of(stored)))) == (ResponseView {
            status: 200,
            body: BodyView::Transactions(stored),
        }),
{
    list_complete(stored);
}

/// Every response is either a success with status 200 or a failure with
/// status 500: no reply of storage leads to any other status.
pub proof fn status_is_200_or_500(reply: Result<Seq<Seq<ValueView>>, Seq<char>>)
    ensures
        list_response(listed(reply)).status == 200 <==> reply is Ok,
        list_response(listed(reply)).status == 500 <==> reply is Err,
        add_response(added(reply)).status == 200 <==> (reply matches Ok(rows) && rows.len() > 0),
        add_response(added(reply)).status == 500 <==> !(reply matches Ok(rows) && rows.len() > 0),
{
}

} // verus!
