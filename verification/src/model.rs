//! The transaction record, the storage row, and the mapping between the two.
//!
//! A row holds the ten columns of the `transactions` table in a fixed order.
//! Optional fields of the record correspond to nullable columns: an absent
//! field is written as `NULL`, and `NULL` is read back as an absent field.

use vstd::prelude::*;

verus! {

/// Number of columns of the `transactions` table.
pub const COLUMN_COUNT: usize = 10;

/// One cell of a storage row: a value of a text column or of a 64-bit
/// integer column, or the `NULL` of such a column.
#[derive(Debug, PartialEq, Eq)]
pub enum Value {
    Text(Option<String>),
    Int(Option<i64>),
}

/// Mathematical model of a [`Value`].
pub enum ValueView {
    Text(Option<Seq<char>>),
    Int(Option<int>),
}

impl View for Value {
    type V = ValueView;

    open spec fn view(&self) -> ValueView {
        match *self {
            Value::Text(s) => ValueView::Text(text_option_view(s)),
            Value::Int(n) => ValueView::Int(int_option_view(n)),
        }
    }
}

impl Clone for Value {
    fn clone(&self) -> (copy: Value)
        ensures
            copy == *self,
    {
        match self {
            Value::Text(s) => Value::Text(clone_text_option(s)),
            Value::Int(n) => Value::Int(*n),
        }
    }
}

impl Value {
    /// Whether the cell is `NULL`.
    pub fn is_null(&self) -> (yes: bool)
        ensures
            yes == is_null(self@),
    {
        match self {
            Value::Text(s) => s.is_none(),
            Value::Int(n) => n.is_none(),
        }
    }
}

/// One row of storage: its cells, in column order.
#[derive(Debug, PartialEq, Eq)]
pub struct Row {
    pub cells: Vec<Value>,
}

impl View for Row {
    type V = Seq<ValueView>;

    open spec fn view(&self) -> Seq<ValueView> {
        Seq::new(self.cells@.len(), |i: int| self.cells@[i]@)
    }
}

impl Clone for Row {
    fn clone(&self) -> (copy: Row)
        ensures
            copy@ == self@,
    {
        let mut cells: Vec<Value> = Vec::with_capacity(self.cells.len());
        let mut i: usize = 0;
        while i < self.cells.len()
            invariant
                i <= self.cells.len(),
                cells@.len() == i,
                forall|j: int| 0 <= j < i ==> cells@[j] == self.cells@[j],
            decreases self.cells.len() - i,
        {
            cells.push(self.cells[i].clone());
            i += 1;
        }
        let copy = Row { cells };
        assert(copy@ =~= self@);
        copy
    }
}

/// One ledger entry. No field is validated: the record holds what the caller
/// gave it.
#[derive(Debug, PartialEq, Eq)]
pub struct Transaction {
    /// Unique identifier, assigned by the caller; the table's primary key.
    pub id: String,
    /// Timestamp, as text.
    pub datetime: String,
    /// Category, such as "deposit" or "transfer".
    pub trx_type: String,
    /// Finer classification within the category.
    pub trx_subtype: String,
    /// Source account; absent for a deposit.
    pub wallet_from: Option<String>,
    /// Destination account; absent for a withdrawal.
    pub wallet_to: Option<String>,
    /// Display label.
    pub name: String,
    /// Monetary value in minor units.
    pub amount: i64,
    /// Fee in minor units, if any.
    pub fee: Option<i64>,
    /// Free-text note, if any.
    pub description: Option<String>,
}

/// Mathematical model of a [`Transaction`].
pub struct TransactionView {
    pub id: Seq<char>,
    pub datetime: Seq<char>,
    pub trx_type: Seq<char>,
    pub trx_subtype: Seq<char>,
    pub wallet_from: Option<Seq<char>>,
    pub wallet_to: Option<Seq<char>>,
    pub name: Seq<char>,
    pub amount: int,
    pub fee: Option<int>,
    pub description: Option<Seq<char>>,
}

/// Model of an optional string.
pub open spec fn text_option_view(s: Option<String>) -> Option<Seq<char>> {
    match s {
        Some(s) => Some(s@),
        None => None,
    }
}

/// Model of an optional 64-bit integer.
pub open spec fn int_option_view(n: Option<i64>) -> Option<int> {
    match n {
        Some(n) => Some(n as int),
        None => None,
    }
}

impl View for Transaction {
    type V = TransactionView;

    open spec fn view(&self) -> TransactionView {
        TransactionView {
            id: self.id@,
            datetime: self.datetime@,
            trx_type: self.trx_type@,
            trx_subtype: self.trx_subtype@,
            wallet_from: text_option_view(self.wallet_from),
            wallet_to: text_option_view(self.wallet_to),
            name: self.name@,
            amount: self.amount as int,
            fee: int_option_view(self.fee),
            description: text_option_view(self.description),
        }
    }
}

/// Whether an integer fits a 64-bit signed column.
pub open spec fn fits_i64(n: int) -> bool {
    i64::MIN <= n <= i64::MAX
}

/// A cell that is `NULL`, of whichever column type.
pub open spec fn is_null(v: ValueView) -> bool {
    v == ValueView::Text(None) || v == ValueView::Int(None)
}

/// The row that stores a transaction: one cell per field, in column order,
/// an absent field as the `NULL` of its column.
pub open spec fn row_of(t: TransactionView) -> Seq<ValueView> {
    seq![
        ValueView::Text(Some(t.id)),
        ValueView::Text(Some(t.datetime)),
        ValueView::Text(Some(t.trx_type)),
        ValueView::Text(Some(t.trx_subtype)),
        ValueView::Text(t.wallet_from),
        ValueView::Text(t.wallet_to),
        ValueView::Text(Some(t.name)),
        ValueView::Int(Some(t.amount)),
        ValueView::Int(t.fee),
        ValueView::Text(t.description),
    ]
}

/// A cell that can be read as an optional text field.
pub open spec fn is_nullable_text(v: ValueView) -> bool {
    v is Text
}

/// A cell that can be read as a required text field.
pub open spec fn is_text(v: ValueView) -> bool {
    v matches ValueView::Text(s) && s is Some
}

/// A cell that can be read as an optional integer field.
pub open spec fn is_nullable_int(v: ValueView) -> bool {
    v matches ValueView::Int(n) && (n matches Some(n) ==> fits_i64(n))
}

/// A cell that can be read as a required integer field.
pub open spec fn is_int(v: ValueView) -> bool {
    v matches ValueView::Int(n) && n matches Some(n) && fits_i64(n)
}

/// What a text cell reads as: its text, or nothing where it is `NULL`.
pub open spec fn text_in(v: ValueView) -> Option<Seq<char>> {
    match v {
        ValueView::Text(s) => s,
        ValueView::Int(_) => None,
    }
}

/// What an integer cell reads as: its number, or nothing where it is `NULL`.
pub open spec fn int_in(v: ValueView) -> Option<int> {
    match v {
        ValueView::Int(n) => n,
        ValueView::Text(_) => None,
    }
}

/// A row that holds a transaction: ten cells, each of its column's type,
/// `NULL` only in the four nullable columns.
pub open spec fn row_is_record(row: Seq<ValueView>) -> bool {
    &&& row.len() == COLUMN_COUNT
    &&& is_text(row[0])
    &&& is_text(row[1])
    &&& is_text(row[2])
    &&& is_text(row[3])
    &&& is_nullable_text(row[4])
    &&& is_nullable_text(row[5])
    &&& is_text(row[6])
    &&& is_int(row[7])
    &&& is_nullable_int(row[8])
    &&& is_nullable_text(row[9])
}

/// The transaction that a row holds; meaningful where `row_is_record` holds.
pub open spec fn record_of(row: Seq<ValueView>) -> TransactionView
    recommends
        row_is_record(row),
{
    TransactionView {
        id: text_in(row[0]).unwrap(),
        datetime: text_in(row[1]).unwrap(),
        trx_type: text_in(row[2]).unwrap(),
        trx_subtype: text_in(row[3]).unwrap(),
        wallet_from: text_in(row[4]),
        wallet_to: text_in(row[5]),
        name: text_in(row[6]).unwrap(),
        amount: int_in(row[7]).unwrap(),
        fee: int_in(row[8]),
        description: text_in(row[9]),
    }
}

/// A transaction whose integer fields fit their 64-bit columns, as every
/// value of [`Transaction`] does.
pub open spec fn is_storable(t: TransactionView) -> bool {
    &&& fits_i64(t.amount)
    &&& t.fee matches Some(fee) ==> fits_i64(fee)
}

fn text_cell(s: &String) -> (cell: Value)
    ensures
        cell@ == ValueView::Text(Some(s@)),
{
    Value::Text(Some(s.clone()))
}

fn nullable_text_cell(s: &Option<String>) -> (cell: Value)
    ensures
        cell@ == ValueView::Text(text_option_view(*s)),
{
    Value::Text(clone_text_option(s))
}

fn read_text(cell: &Value) -> (text: Option<String>)
    ensures
        text is Some <==> is_text(cell@),
        text matches Some(s) ==> text_in(cell@) == Some(s@),
{
    match cell {
        Value::Text(Some(s)) => Some(s.clone()),
        _ => None,
    }
}

fn read_nullable_text(cell: &Value) -> (text: Option<Option<String>>)
    ensures
        text is Some <==> is_nullable_text(cell@),
        text matches Some(s) ==> text_option_view(s) == text_in(cell@),
{
    match cell {
        Value::Text(s) => Some(clone_text_option(s)),
        Value::Int(_) => None,
    }
}

fn read_int(cell: &Value) -> (number: Option<i64>)
    ensures
        number is Some <==> is_int(cell@),
        number matches Some(n) ==> int_in(cell@) == Some(n as int),
{
    match cell {
        Value::Int(Some(n)) => Some(*n),
        _ => None,
    }
}

fn read_nullable_int(cell: &Value) -> (number: Option<Option<i64>>)
    ensures
        number is Some <==> is_nullable_int(cell@),
        number matches Some(n) ==> int_option_view(n) == int_in(cell@),
{
    match cell {
        Value::Int(n) => Some(*n),
        Value::Text(_) => None,
    }
}

fn holds_text(cell: &Value) -> (yes: bool)
    ensures
        yes == is_text(cell@),
{
    match cell {
        Value::Text(Some(_)) => true,
        _ => false,
    }
}

fn holds_nullable_text(cell: &Value) -> (yes: bool)
    ensures
        yes == is_nullable_text(cell@),
{
    match cell {
        Value::Text(_) => true,
        Value::Int(_) => false,
    }
}

fn holds_int(cell: &Value) -> (yes: bool)
    ensures
        yes == is_int(cell@),
{
    match cell {
        Value::Int(Some(_)) => true,
        _ => false,
    }
}

fn holds_nullable_int(cell: &Value) -> (yes: bool)
    ensures
        yes == is_nullable_int(cell@),
{
    match cell {
        Value::Int(_) => true,
        Value::Text(_) => false,
    }
}

impl Row {
    /// Whether the row holds a transaction.
    pub fn is_record(&self) -> (yes: bool)
        ensures
            yes == row_is_record(self@),
    {
        self.cells.len() == COLUMN_COUNT && holds_text(&self.cells[0]) && holds_text(
            &self.cells[1],
        ) && holds_text(&self.cells[2]) && holds_text(&self.cells[3]) && holds_nullable_text(
            &self.cells[4],
        ) && holds_nullable_text(&self.cells[5]) && holds_text(&self.cells[6]) && holds_int(
            &self.cells[7],
        ) && holds_nullable_int(&self.cells[8]) && holds_nullable_text(&self.cells[9])
    }
}

impl Transaction {
    /// The row that stores this transaction: each field in its column, an
    /// absent optional field as `NULL`.
    pub fn to_row(&self) -> (row: Row)
        ensures
            row@ == row_of(self@),
            row_is_record(row@),
    {
        let mut cells: Vec<Value> = Vec::with_capacity(COLUMN_COUNT);
        cells.push(text_cell(&self.id));
        cells.push(text_cell(&self.datetime));
        cells.push(text_cell(&self.trx_type));
        cells.push(text_cell(&self.trx_subtype));
        cells.push(nullable_text_cell(&self.wallet_from));
        cells.push(nullable_text_cell(&self.wallet_to));
        cells.push(text_cell(&self.name));
        cells.push(Value::Int(Some(self.amount)));
        cells.push(Value::Int(self.fee));
        cells.push(nullable_text_cell(&self.description));
        let row = Row { cells };
        assert(row@ =~= row_of(self@));
        row
    }

    /// Reads a transaction from a row. Succeeds exactly on the rows that hold
    /// one, and then yields every field as the row has it, `NULL` as absent.
    pub fn from_row(row: &Row) -> (record: Option<Transaction>)
        ensures
            record is Some <==> row_is_record(row@),
            record matches Some(t) ==> t@ == record_of(row@),
    {
        if row.cells.len() != COLUMN_COUNT {
            return None;
        }
        let id = read_text(&row.cells[0]);
        let datetime = read_text(&row.cells[1]);
        let trx_type = read_text(&row.cells[2]);
        let trx_subtype = read_text(&row.cells[3]);
        let wallet_from = read_nullable_text(&row.cells[4]);
        let wallet_to = read_nullable_text(&row.cells[5]);
        let name = read_text(&row.cells[6]);
        let amount = read_int(&row.cells[7]);
        let fee = read_nullable_int(&row.cells[8]);
        let description = read_nullable_text(&row.cells[9]);
        match (id, datetime, trx_type, trx_subtype, wallet_from, wallet_to, name, amount, fee, description) {
            (
                Some(id),
                Some(datetime),
                Some(trx_type),
                Some(trx_subtype),
                Some(wallet_from),
                Some(wallet_to),
                Some(name),
                Some(amount),
                Some(fee),
                Some(description),
            ) => Some(
                Transaction {
                    id,
                    datetime,
                    trx_type,
                    trx_subtype,
                    wallet_from,
                    wallet_to,
                    name,
                    amount,
                    fee,
                    description,
                },
            ),
            _ => None,
        }
    }
}

impl Clone for Transaction {
    fn clone(&self) -> (copy: Transaction)
        ensures
            copy == *self,
    {
        Transaction {
            id: self.id.clone(),
            datetime: self.datetime.clone(),
            trx_type: self.trx_type.clone(),
            trx_subtype: self.trx_subtype.clone(),
            wallet_from: clone_text_option(&self.wallet_from),
            wallet_to: clone_text_option(&self.wallet_to),
            name: self.name.clone(),
            amount: self.amount,
            fee: self.fee,
            description: clone_text_option(&self.description),
        }
    }
}

fn clone_text_option(s: &Option<String>) -> (copy: Option<String>)
    ensures
        copy == *s,
{
    match s {
        Some(s) => Some(s.clone()),
        None => None,
    }
}

/// Writing a transaction to a row and reading the row back gives the same
/// transaction, field for field.
pub proof fn row_round_trip(t: TransactionView)
    requires
        is_storable(t),
    ensures
        row_is_record(row_of(t)),
        record_of(row_of(t)) == t,
{
}

/// A row that holds a transaction is the row that stores it: no other row
/// reads as the same record.
pub proof fn record_round_trip(row: Seq<ValueView>)
    requires
        row_is_record(row),
    ensures
        is_storable(record_of(row)),
        row_of(record_of(row)) == row,
{
    assert(row_of(record_of(row)) =~= row);
}

/// Every transaction value has integer fields that fit their columns.
pub proof fn transaction_is_storable(t: Transaction)
    ensures
        is_storable(t@),
{
}

/// An optional field is absent exactly when its cell is `NULL`: an absent
/// field is never stored as an empty string or as zero, and what is read
/// back is absent exactly where the field was. No required field is ever
/// stored as `NULL`.
pub proof fn absent_is_null(t: TransactionView)
    ensures
        t.wallet_from is None <==> is_null(row_of(t)[4]),
        t.wallet_to is None <==> is_null(row_of(t)[5]),
        t.fee is None <==> is_null(row_of(t)[8]),
        t.description is None <==> is_null(row_of(t)[9]),
        record_of(row_of(t)).wallet_from is None <==> t.wallet_from is None,
        record_of(row_of(t)).wallet_to is None <==> t.wallet_to is None,
        record_of(row_of(t)).fee is None <==> t.fee is None,
        record_of(row_of(t)).description is None <==> t.description is None,
        !is_null(row_of(t)[0]),
        !is_null(row_of(t)[1]),
        !is_null(row_of(t)[2]),
        !is_null(row_of(t)[3]),
        !is_null(row_of(t)[6]),
        !is_null(row_of(t)[7]),
{
}

} // verus!
