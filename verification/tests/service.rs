use transaction_service::error::{RepositoryError, STATUS_INTERNAL_SERVER_ERROR, STATUS_OK};
use transaction_service::handlers;
use transaction_service::handlers::{Body, Response};
use transaction_service::model::{Row, Transaction, Value};
use transaction_service::repository;
use transaction_service::repository::{Statement, INSERT_SQL, SELECT_SQL};

/// A table in memory that answers the two statements as storage does: the
/// insert returns the stored row and refuses a second row with the same id.
struct Table {
    rows: Vec<Row>,
}

impl Table {
    fn new() -> Table {
        Table { rows: Vec::new() }
    }

    fn execute(&mut self, statement: &Statement) -> Result<Vec<Row>, String> {
        if statement.sql == SELECT_SQL {
            assert!(statement.params.cells.is_empty());
            Ok(self.rows.clone())
        } else {
            assert_eq!(statement.sql, INSERT_SQL);
            if self.rows.iter().any(|row| row.cells[0] == statement.params.cells[0]) {
                return Err("duplicate key value violates unique constraint".to_string());
            }
            self.rows.push(statement.params.clone());
            Ok(vec![statement.params.clone()])
        }
    }

    fn post(&mut self, t: &Transaction) -> Response {
        let reply = self.execute(&repository::insert_statement(t));
        assert!(repository::reply_is_readable(&reply));
        handlers::add_transaction(reply)
    }

    fn get(&mut self) -> Response {
        let reply = self.execute(&repository::select_statement());
        assert!(repository::reply_is_readable(&reply));
        handlers::get_transactions(reply)
    }
}

fn numbered(i: i64) -> Transaction {
    Transaction {
        id: format!("t{}", i),
        datetime: "2024-02-02T12:00:00Z".to_string(),
        trx_type: "transfer".to_string(),
        trx_subtype: "wire".to_string(),
        wallet_from: Some(format!("from-{}", i)),
        wallet_to: if i % 2 == 0 { Some(format!("to-{}", i)) } else { None },
        name: format!("name {}", i),
        amount: 100 * i,
        fee: if i % 3 == 0 { None } else { Some(i) },
        description: None,
    }
}

fn alice() -> Transaction {
    Transaction {
        id: "t1".to_string(),
        datetime: "2024-01-01T00:00:00Z".to_string(),
        trx_type: "deposit".to_string(),
        trx_subtype: "cash".to_string(),
        wallet_from: None,
        wallet_to: None,
        name: "Alice".to_string(),
        amount: 1000,
        fee: None,
        description: None,
    }
}

#[test]
fn select_statement_has_no_parameters() {
    let statement = repository::select_statement();
    assert_eq!(statement.sql, SELECT_SQL);
    assert!(statement.params.cells.is_empty());
    assert_eq!(
        statement.sql,
        "SELECT id, datetime, trx_type, trx_subtype, wallet_from, wallet_to, name, amount, fee, description FROM transactions"
    );
}

#[test]
fn insert_statement_carries_the_row() {
    let t = numbered(4);
    let statement = repository::insert_statement(&t);
    assert_eq!(statement.sql, INSERT_SQL);
    assert_eq!(statement.params, t.to_row());
    assert_eq!(statement.params.cells.len(), 10);
    assert_eq!(statement.params.cells[0], Value::Text(Some("t4".to_string())));
    assert_eq!(statement.params.cells[7], Value::Int(Some(400)));
    assert_eq!(statement.params.cells[9], Value::Text(None));
    assert!(statement.sql.starts_with("INSERT INTO transactions("));
    assert!(statement.sql.contains("VALUES ($1, $2, $3, $4, $5, $6, $7, $8, $9, $10)"));
    assert!(statement.sql.contains("RETURNING id, datetime"));
}

#[test]
fn listing_nothing_gives_the_empty_list() {
    assert_eq!(repository::get_transactions(Ok(Vec::new())), Ok(Vec::new()));
}

#[test]
fn listing_reads_every_row_in_order() {
    let rows = vec![numbered(2).to_row(), numbered(1).to_row(), numbered(3).to_row()];
    assert_eq!(
        repository::get_transactions(Ok(rows)),
        Ok(vec![numbered(2), numbered(1), numbered(3)])
    );
}

#[test]
fn listing_in_another_order_holds_the_same_records() {
    let forward = vec![numbered(1).to_row(), numbered(2).to_row(), numbered(3).to_row()];
    let backward = vec![numbered(3).to_row(), numbered(2).to_row(), numbered(1).to_row()];
    let mut a = repository::get_transactions(Ok(forward)).unwrap();
    let mut b = repository::get_transactions(Ok(backward)).unwrap();
    assert_eq!(b, vec![numbered(3), numbered(2), numbered(1)]);
    a.sort_by(|x, y| x.id.cmp(&y.id));
    b.sort_by(|x, y| x.id.cmp(&y.id));
    assert_eq!(a, b);
    assert_eq!(a, vec![numbered(1), numbered(2), numbered(3)]);
}

#[test]
fn listing_fails_with_a_storage_error() {
    assert_eq!(
        repository::get_transactions(Err("pool timed out".to_string())),
        Err(RepositoryError::Storage("pool timed out".to_string()))
    );
}

#[test]
fn adding_returns_the_stored_row() {
    let t = numbered(5);
    assert_eq!(repository::add_transaction(Ok(vec![t.to_row()])), Ok(numbered(5)));
}

#[test]
fn adding_returns_the_last_of_several_rows() {
    let rows = vec![numbered(1).to_row(), numbered(2).to_row()];
    assert_eq!(repository::add_transaction(Ok(rows)), Ok(numbered(2)));
}

#[test]
fn adding_without_a_returned_row_is_not_found() {
    assert_eq!(repository::add_transaction(Ok(Vec::new())), Err(RepositoryError::NotFound));
}

#[test]
fn adding_fails_with_a_storage_error() {
    assert_eq!(
        repository::add_transaction(Err("connection refused".to_string())),
        Err(RepositoryError::Storage("connection refused".to_string()))
    );
}

#[test]
fn unreadable_rows_are_detected() {
    let mut bad = numbered(1).to_row();
    bad.cells[7] = Value::Int(None);
    let rows = vec![numbered(2).to_row(), bad];
    assert!(!repository::rows_are_records(&rows));
    assert!(!repository::reply_is_readable(&Ok(rows)));
    assert!(repository::rows_are_records(&vec![numbered(2).to_row()]));
    assert!(repository::rows_are_records(&Vec::new()));
    assert!(repository::reply_is_readable(&Err("down".to_string())));
}

#[test]
fn read_rows_reads_each_row() {
    let rows = vec![numbered(9).to_row(), alice().to_row()];
    assert_eq!(repository::read_rows(&rows), vec![numbered(9), alice()]);
    assert_eq!(repository::read_rows(&Vec::new()), Vec::new());
}

#[test]
fn both_errors_have_status_500() {
    assert_eq!(STATUS_OK, 200);
    assert_eq!(STATUS_INTERNAL_SERVER_ERROR, 500);
    assert_eq!(RepositoryError::NotFound.status(), 500);
    assert_eq!(RepositoryError::Storage("x".to_string()).status(), 500);
}

#[test]
fn error_messages() {
    assert_eq!(RepositoryError::Storage("disk full".to_string()).message(), "disk full");
    assert_eq!(RepositoryError::NotFound.message(), "no row was returned");
    let e = RepositoryError::Storage("disk full".to_string());
    assert_eq!(e.clone(), e);
    assert_eq!(RepositoryError::NotFound.clone(), RepositoryError::NotFound);
}

#[test]
fn responses_to_results() {
    assert_eq!(
        handlers::respond_list(Ok(vec![alice()])),
        Response { status: 200, body: Body::Transactions(vec![alice()]) }
    );
    assert_eq!(
        handlers::respond_add(Ok(alice())),
        Response { status: 200, body: Body::Transaction(alice()) }
    );
    assert_eq!(
        handlers::respond_add(Err(RepositoryError::NotFound)),
        Response { status: 500, body: Body::Failure(RepositoryError::NotFound) }
    );
    assert_eq!(
        handlers::respond_list(Err(RepositoryError::Storage("down".to_string()))),
        Response { status: 500, body: Body::Failure(RepositoryError::Storage("down".to_string())) }
    );
    assert_eq!(
        handlers::respond_failure(RepositoryError::NotFound),
        Response { status: 500, body: Body::Failure(RepositoryError::NotFound) }
    );
}

#[test]
fn get_on_an_empty_table_is_200_with_an_empty_array() {
    let mut table = Table::new();
    assert_eq!(table.get(), Response { status: 200, body: Body::Transactions(Vec::new()) });
    assert_eq!(
        handlers::get_transactions(Ok(Vec::new())),
        Response { status: 200, body: Body::Transactions(Vec::new()) }
    );
}

#[test]
fn get_reports_a_storage_failure_as_500() {
    assert_eq!(
        handlers::get_transactions(Err("pool exhausted".to_string())),
        Response {
            status: 500,
            body: Body::Failure(RepositoryError::Storage("pool exhausted".to_string())),
        }
    );
}

#[test]
fn post_reports_a_missing_row_as_500() {
    assert_eq!(
        handlers::add_transaction(Ok(Vec::new())),
        Response { status: 500, body: Body::Failure(RepositoryError::NotFound) }
    );
}

#[test]
fn post_returns_the_record_field_for_field() {
    let mut table = Table::new();
    for i in 0..6 {
        let t = numbered(i);
        assert_eq!(table.post(&t), Response { status: 200, body: Body::Transaction(numbered(i)) });
    }
}

#[test]
fn get_lists_exactly_what_was_posted() {
    for n in [0i64, 1, 2, 7] {
        let mut table = Table::new();
        for i in 0..n {
            assert_eq!(table.post(&numbered(i)).status, 200);
        }
        let response = table.get();
        assert_eq!(response.status, 200);
        match response.body {
            Body::Transactions(list) => {
                assert_eq!(list.len(), n as usize);
                for i in 0..n {
                    assert_eq!(list.iter().filter(|t| **t == numbered(i)).count(), 1);
                }
            }
            other => panic!("unexpected body {:?}", other),
        }
    }
}

#[test]
fn a_duplicate_id_is_a_storage_error_and_changes_nothing() {
    let mut table = Table::new();
    assert_eq!(table.post(&numbered(1)).status, 200);
    let mut other = numbered(2);
    other.id = "t1".to_string();
    let response = table.post(&other);
    assert_eq!(response.status, 500);
    assert!(matches!(response.body, Body::Failure(RepositoryError::Storage(_))));
    assert_eq!(table.get(), Response { status: 200, body: Body::Transactions(vec![numbered(1)]) });
}

#[test]
fn post_without_optional_fields_reports_them_absent() {
    let mut table = Table::new();
    let response = table.post(&alice());
    assert_eq!(response.status, 200);
    match response.body {
        Body::Transaction(t) => {
            assert_eq!(t.wallet_from, None);
            assert_eq!(t.wallet_to, None);
            assert_eq!(t.fee, None);
            assert_eq!(t.description, None);
            assert_ne!(t.wallet_from, Some(String::new()));
            assert_ne!(t.fee, Some(0));
        }
        other => panic!("unexpected body {:?}", other),
    }
}

#[test]
fn deposit_scenario() {
    let mut table = Table::new();
    let posted = table.post(&alice());
    assert_eq!(
        posted,
        Response {
            status: 200,
            body: Body::Transaction(Transaction {
                id: "t1".to_string(),
                datetime: "2024-01-01T00:00:00Z".to_string(),
                trx_type: "deposit".to_string(),
                trx_subtype: "cash".to_string(),
                wallet_from: None,
                wallet_to: None,
                name: "Alice".to_string(),
                amount: 1000,
                fee: None,
                description: None,
            }),
        }
    );
    assert_eq!(table.get(), Response { status: 200, body: Body::Transactions(vec![alice()]) });
}
