//! The ledger store: an SQLite-backed table of transactions, held by one
//! exclusive handle, with append, balance and history queries.
//!
//! Opening a store reads every stored row once into the handle's own copy of
//! the table; appends go to the table and to the copy together. Balance and
//! history are then computed afresh on each call from that copy, not read
//! from the table again: rows that another handle writes to the same location
//! are seen only after the store is reopened.

use vstd::prelude::*;
use vstd::arithmetic::power2::pow2;
use crate::transaction::{Transaction, TransactionBuilder, TransactionModel, TransactionType};

verus! {

#[verifier::external_type_specification]
#[verifier::external_body]
pub struct ExConnection(rusqlite::Connection);

#[verifier::external_type_specification]
#[verifier::external_body]
pub struct ExSqlError(rusqlite::Error);

#[verifier::external_type_specification]
#[verifier::external_body]
pub struct ExIdError(uuid::Error);

/// The underlying cause of a storage failure.
#[derive(Debug)]
pub enum StorageFault {
    /// The database engine reported an error.
    Sqlite(rusqlite::Error),
    /// A stored id is not the text of a UUID.
    StoredId(uuid::Error),
}

/// Why a store could not be opened or could not perform an operation.
#[derive(Debug)]
pub enum LedgerError {
    /// The backing medium could not be opened, initialised or read.
    StorageUnavailable(StorageFault),
    /// A record with the same id is already stored.
    DuplicateId,
    /// A write to the backing medium failed.
    StorageError(StorageFault),
}

/// The table definition; creating it leaves an existing table untouched.
pub const SCHEMA_SQL: &'static str = "CREATE TABLE IF NOT EXISTS transactions (
    id TEXT PRIMARY KEY,
    amount REAL NOT NULL,
    description TEXT NOT NULL,
    date TEXT NOT NULL,
    category TEXT NOT NULL,
    operation TEXT NOT NULL
)";

/// Inserts one row; the amount is bound in cents and stored in whole units.
pub const INSERT_SQL: &'static str = "INSERT INTO transactions (id, amount, description, date, category, operation)
    VALUES (?1, CAST(?2 AS REAL) / 100, ?3, ?4, ?5, ?6)";

/// Reads every row in storage order, with the amount back in cents.
pub const SELECT_SQL: &'static str = "SELECT id, CAST(ROUND(amount * 100) AS INTEGER), description, date, category, operation
    FROM transactions";

/// The location name under which SQLite opens a private in-memory database.
pub const IN_MEMORY_LOCATION: &'static str = ":memory:";

/// One stored row: id text, amount in cents, description, date, category and
/// kind label.
pub type StoredRow = (String, i64, String, String, String, String);

/// The sixteen lowercase hexadecimal digits, by value.
pub open spec fn hex_digits() -> Seq<char> {
    seq!['0', '1', '2', '3', '4', '5', '6', '7', '8', '9', 'a', 'b', 'c', 'd', 'e', 'f']
}

/// Hexadecimal digit `k` of a 128-bit value, counting from the most
/// significant of its 32 digits.
pub open spec fn hex_digit_of(v: u128, k: int) -> int {
    (v as int / pow2((4 * (31 - k)) as nat) as int) % 16
}

/// Whether position `i` of a UUID's hyphenated text holds a hyphen.
pub open spec fn hyphen_at(i: int) -> bool {
    i == 8 || i == 13 || i == 18 || i == 23
}

/// Which of the 32 digits stands at a non-hyphen position of the text.
pub open spec fn digit_index_at(i: int) -> int {
    if i < 8 {
        i
    } else if i < 13 {
        i - 1
    } else if i < 18 {
        i - 2
    } else if i < 23 {
        i - 3
    } else {
        i - 4
    }
}

/// The text of a UUID in hyphenated form: its 32 lowercase hexadecimal
/// digits, most significant first, grouped 8-4-4-4-12.
pub open spec fn uuid_text(id: u128) -> Seq<char> {
    Seq::new(
        36,
        |i: int|
            if hyphen_at(i) {
                '-'
            } else {
                hex_digits()[hex_digit_of(id, digit_index_at(i))]
            },
    )
}

/// Relies on rusqlite::Connection::open: opens or creates the database at a
/// location. Whether it succeeds depends on the medium.
#[verifier::external_body]
fn open_connection(location: &str) -> (r: Result<rusqlite::Connection, rusqlite::Error>) {
    rusqlite::Connection::open(location)
}

/// Relies on rusqlite::Connection::execute_batch: runs statements that take no
/// parameters. Whether it succeeds depends on the medium.
#[verifier::external_body]
fn execute_batch(connection: &rusqlite::Connection, sql: &str) -> (r: Result<(), rusqlite::Error>) {
    connection.execute_batch(sql)
}

/// Relies on rusqlite::Connection::execute: runs one statement with six bound
/// parameters. Whether it succeeds depends on the medium.
#[verifier::external_body]
fn execute_row(
    connection: &rusqlite::Connection,
    sql: &str,
    id: &str,
    amount: i64,
    description: &str,
    date: &str,
    category: &str,
    operation: &str,
) -> (r: Result<usize, rusqlite::Error>) {
    connection.execute(sql, (id, amount, description, date, category, operation))
}

/// Relies on rusqlite::Connection::prepare, Statement::query_map and the
/// conversion of a row into a tuple of its columns: runs a query and reads
/// each row's six columns. What comes back depends on the medium.
#[verifier::external_body]
fn query_rows(connection: &rusqlite::Connection, sql: &str) -> (r: Result<Vec<StoredRow>, rusqlite::Error>) {
    let mut statement = connection.prepare(sql)?;
    let rows = statement.query_map([], |row| StoredRow::try_from(row))?;
    rows.collect()
}

/// Relies on uuid::Uuid::from_u128 and Uuid::hyphenated: the id's bytes,
/// most significant first, written as lowercase hexadecimal in groups of
/// 8-4-4-4-12 digits.
#[verifier::external_body]
fn id_to_text(id: u128) -> (r: String)
    ensures
        r@ == uuid_text(id),
{
    uuid::Uuid::from_u128(id).hyphenated().to_string()
}

/// The value that `uuid::Uuid::parse_str` reads from a text.
pub uninterp spec fn uuid_value(text: Seq<char>) -> u128;

/// Relies on uuid::Uuid::parse_str and Uuid::as_u128: reads the text of a
/// UUID back into its value, which depends on the text alone.
#[verifier::external_body]
fn id_from_text(text: &str) -> (r: Result<u128, uuid::Error>)
    ensures
        r is Ok ==> r->Ok_0 == uuid_value(text@),
{
    uuid::Uuid::parse_str(text).map(|u| u.as_u128())
}

/// The signed effect of one record on the balance: income adds its amount,
/// an expense takes it away.
pub open spec fn signed_amount(t: TransactionModel) -> int {
    match t.operation {
        TransactionType::Income => t.amount,
        TransactionType::Expense => -t.amount,
    }
}

/// The balance of a sequence of records: the sum of their signed amounts.
pub open spec fn balance_of(s: Seq<TransactionModel>) -> int
    decreases s.len(),
{
    if s.len() == 0 {
        0
    } else {
        balance_of(s.drop_last()) + signed_amount(s.last())
    }
}

/// The sum of the amounts of the records of one kind.
pub open spec fn total_of_kind(s: Seq<TransactionModel>, kind: TransactionType) -> int
    decreases s.len(),
{
    if s.len() == 0 {
        0
    } else {
        total_of_kind(s.drop_last(), kind) + if s.last().operation == kind {
            s.last().amount
        } else {
            0
        }
    }
}

/// The balance of two runs of records, one after the other, is the sum of
/// their balances.
pub proof fn lemma_balance_concat(a: Seq<TransactionModel>, b: Seq<TransactionModel>)
    ensures
        balance_of(a + b) == balance_of(a) + balance_of(b),
    decreases b.len(),
{
    if b.len() == 0 {
        assert(a + b =~= a);
    } else {
        lemma_balance_concat(a, b.drop_last());
        assert((a + b).drop_last() =~= a + b.drop_last());
    }
}

/// Taking one record out of a sequence takes exactly its signed amount out
/// of the balance.
pub proof fn lemma_balance_remove(s: Seq<TransactionModel>, i: int)
    requires
        0 <= i < s.len(),
    ensures
        balance_of(s) == balance_of(s.remove(i)) + signed_amount(s[i]),
{
    let front = s.take(i);
    let one = seq![s[i]];
    let back = s.skip(i + 1);
    assert(s =~= (front + one) + back);
    assert(s.remove(i) =~= front + back);
    assert(one.drop_last() =~= Seq::<TransactionModel>::empty());
    assert(balance_of(one.drop_last()) == 0);
    assert(one.last() == s[i]);
    assert(balance_of(one) == signed_amount(s[i]));
    lemma_balance_concat(front + one, back);
    lemma_balance_concat(front, one);
    lemma_balance_concat(front, back);
}

/// The balance is the income total minus the expense total.
pub proof fn lemma_balance_is_income_minus_expenses(s: Seq<TransactionModel>)
    ensures
        balance_of(s) == total_of_kind(s, TransactionType::Income) - total_of_kind(
            s,
            TransactionType::Expense,
        ),
    decreases s.len(),
{
    if s.len() > 0 {
        lemma_balance_is_income_minus_expenses(s.drop_last());
    }
}

/// The balance does not depend on the order in which the records were
/// appended: two sequences holding the same records, each as often, have the
/// same balance.
pub proof fn lemma_balance_order_independent(s: Seq<TransactionModel>, t: Seq<TransactionModel>)
    requires
        s.to_multiset() == t.to_multiset(),
    ensures
        balance_of(s) == balance_of(t),
    decreases s.len(),
{
    s.to_multiset_ensures();
    t.to_multiset_ensures();
    if s.len() == 0 {
        assert(t.len() == 0);
    } else {
        let x = s.last();
        let rest = s.drop_last();
        rest.to_multiset_ensures();
        assert(rest.push(x) =~= s);
        assert(t.to_multiset().count(x) > 0);
        assert(t.contains(x));
        let j = choose|j: int| 0 <= j < t.len() && t[j] == x;
        assert(rest.to_multiset() =~= t.remove(j).to_multiset());
        lemma_balance_order_independent(rest, t.remove(j));
        lemma_balance_remove(t, j);
    }
}

/// A store with no records has a zero balance and lists nothing.
pub proof fn lemma_empty_store(listed: Seq<Transaction>)
    requires
        models_of(listed) == Seq::<TransactionModel>::empty(),
    ensures
        balance_of(Seq::<TransactionModel>::empty()) == 0,
        listed.len() == 0,
{
    assert(models_of(listed).len() == listed.len());
}

/// After a record is appended, the history lists every earlier record as it
/// was and then the appended one, field for field.
pub proof fn lemma_appended_record_listed(
    before: Seq<TransactionModel>,
    t: TransactionModel,
    listed: Seq<Transaction>,
)
    requires
        models_of(listed) == before.push(t),
    ensures
        listed.len() == before.len() + 1,
        listed[before.len() as int]@ == t,
        forall|k: int| 0 <= k < before.len() ==> #[trigger] listed[k]@ == before[k],
{
    assert(models_of(listed).len() == listed.len());
    assert forall|k: int| 0 <= k < before.len() implies #[trigger] listed[k]@ == before[k] by {
        assert(models_of(listed)[k] == before.push(t)[k]);
    }
    assert(models_of(listed)[before.len() as int] == t);
}

/// Whether some record carries the id.
pub open spec fn contains_id(s: Seq<TransactionModel>, id: u128) -> bool {
    exists|i: int| 0 <= i < s.len() && #[trigger] s[i].id == id
}

/// The records of a vector, as values.
pub open spec fn models_of(v: Seq<Transaction>) -> Seq<TransactionModel> {
    v.map_values(|t: Transaction| t@)
}

/// The record that a stored row denotes, given the value of its id text: the
/// kind label is read as `TransactionType::from_label` reads it.
pub open spec fn row_model(id: u128, row: StoredRow) -> TransactionModel {
    TransactionModel {
        id,
        amount: row.1 as int,
        description: row.2@,
        date: row.3@,
        category: row.4@,
        operation: TransactionType::from_label_spec(row.5@),
    }
}

/// The records that stored rows denote, each with the value parsed from its
/// id text, in the rows' order.
pub open spec fn rows_model(rows: Seq<StoredRow>) -> Seq<TransactionModel> {
    Seq::new(rows.len(), |i: int| row_model(uuid_value(rows[i].0@), rows[i]))
}

/// Rebuilds a record from a stored row and the value of its id text.
pub fn decode_row(id: u128, row: &StoredRow) -> (r: Transaction)
    ensures
        r@ == row_model(id, *row),
{
    TransactionBuilder::new()
        .id(id)
        .amount(row.1)
        .description(row.2.as_str())
        .date(row.3.as_str())
        .category(row.4.as_str())
        .operation(TransactionType::from_label(&row.5))
        .build()
}

/// Opens the location and makes sure the table exists.
fn connect(location: &str) -> (r: Result<rusqlite::Connection, LedgerError>)
    ensures
        r is Err ==> r->Err_0 is StorageUnavailable,
{
    match open_connection(location) {
        Err(e) => Err(LedgerError::StorageUnavailable(StorageFault::Sqlite(e))),
        Ok(connection) => match execute_batch(&connection, SCHEMA_SQL) {
            Err(e) => Err(LedgerError::StorageUnavailable(StorageFault::Sqlite(e))),
            Ok(()) => Ok(connection),
        },
    }
}

/// Rebuilds every stored row into a record, in order, with the value parsed
/// from its id text; fails on the first id text that is not a UUID.
pub fn records_from_rows(rows: &Vec<StoredRow>) -> (r: Result<Vec<Transaction>, StorageFault>)
    ensures
        r is Ok ==> models_of(r->Ok_0@) == rows_model(rows@),
        r is Err ==> r->Err_0 is StoredId,
{
    let mut records: Vec<Transaction> = Vec::new();
    let mut i: usize = 0;
    while i < rows.len()
        invariant
            i <= rows@.len(),
            records@.len() == i,
            forall|k: int| 0 <= k < i ==> #[trigger] records@[k]@ == row_model(uuid_value(rows@[k].0@), rows@[k]),
        decreases rows@.len() - i,
    {
        let row = &rows[i];
        match id_from_text(row.0.as_str()) {
            Err(e) => return Err(StorageFault::StoredId(e)),
            Ok(id) => records.push(decode_row(id, row)),
        }
        i = i + 1;
    }
    proof {
        assert(models_of(records@) =~= rows_model(rows@));
    }
    Ok(records)
}

/// The row under which a record is stored: its id text, its amount in cents,
/// its three texts, and the label of its kind.
pub fn encode_row(t: &Transaction) -> (r: StoredRow)
    ensures
        r.0@ == uuid_text(t@.id),
        r.1 as int == t@.amount,
        r.2@ == t@.description,
        r.3@ == t@.date,
        r.4@ == t@.category,
        r.5@ == t@.operation.label_spec(),
{
    (
        id_to_text(t.get_id()),
        t.get_amount(),
        t.get_description().to_owned(),
        t.get_date().to_owned(),
        t.get_category().to_owned(),
        t.get_operation().label(),
    )
}

/// Where a store keeps its records: chosen by whoever bootstraps the ledger
/// and handed to `Database::open`.
pub enum StoreLocation {
    /// A private store that vanishes with its handle.
    Ephemeral,
    /// A store that persists at a path across restarts.
    Durable(String),
}

/// A ledger store: one exclusive handle on a table of transactions.
pub struct Database {
    connection: rusqlite::Connection,
    records: Vec<Transaction>,
}

impl View for Database {
    type V = Seq<TransactionModel>;

    /// The stored records, in storage order.
    closed spec fn view(&self) -> Seq<TransactionModel> {
        models_of(self.records@)
    }
}

impl Database {
    /// Opens (or creates) the durable store at a path, keeping what is already
    /// stored there: its records are the stored rows, read by
    /// `records_from_rows`.
    pub fn new(db_path: &str) -> (r: Result<Database, LedgerError>)
        ensures
            r is Ok ==> exists|rows: Seq<StoredRow>| r->Ok_0@ == rows_model(rows),
            r is Err ==> r->Err_0 is StorageUnavailable,
    {
        let connection = match connect(db_path) {
            Ok(c) => c,
            Err(e) => return Err(e),
        };
        let rows = match query_rows(&connection, SELECT_SQL) {
            Ok(rows) => rows,
            Err(e) => return Err(LedgerError::StorageUnavailable(StorageFault::Sqlite(e))),
        };
        match records_from_rows(&rows) {
            Err(fault) => Err(LedgerError::StorageUnavailable(fault)),
            Ok(records) => {
                let db = Database { connection, records };
                assert(db@ == rows_model(rows@));
                Ok(db)
            },
        }
    }

    /// Opens a fresh store whose contents vanish with the handle; no two such
    /// stores share records.
    pub fn new_in_memory() -> (r: Result<Database, LedgerError>)
        ensures
            r is Ok ==> r->Ok_0@ == Seq::<TransactionModel>::empty(),
            r is Err ==> r->Err_0 is StorageUnavailable,
    {
        match connect(IN_MEMORY_LOCATION) {
            Err(e) => Err(e),
            Ok(connection) => {
                let records: Vec<Transaction> = Vec::new();
                proof {
                    assert(models_of(records@) =~= Seq::<TransactionModel>::empty());
                }
                Ok(Database { connection, records })
            },
        }
    }

    /// Opens the store that a location names.
    pub fn open(location: &StoreLocation) -> (r: Result<Database, LedgerError>)
        ensures
            location is Ephemeral && r is Ok ==> r->Ok_0@ == Seq::<TransactionModel>::empty(),
            r is Err ==> r->Err_0 is StorageUnavailable,
    {
        match location {
            StoreLocation::Ephemeral => Database::new_in_memory(),
            StoreLocation::Durable(path) => Database::new(path.as_str()),
        }
    }

    /// Whether a stored record carries the id.
    fn holds_id(&self, id: u128) -> (r: bool)
        ensures
            r == contains_id(self@, id),
    {
        let mut i: usize = 0;
        while i < self.records.len()
            invariant
                i <= self.records@.len(),
                forall|k: int| 0 <= k < i ==> self@[k].id != id,
            decreases self.records@.len() - i,
        {
            if self.records[i].get_id() == id {
                proof {
                    assert(self@[i as int] == self.records@[i as int]@);
                }
                return true;
            }
            i = i + 1;
        }
        false
    }

    /// Appends one record as a new row keyed by its id; the row written is
    /// `encode_row` of the record. A record whose id is already stored is
    /// refused with `DuplicateId`; a failed write surfaces as `StorageError`.
    /// On any failure the store is unchanged.
    pub fn add_transaction(&mut self, transaction: &Transaction) -> (r: Result<(), LedgerError>)
        ensures
            r is Ok ==> final(self)@ == old(self)@.push(transaction@),
            r is Err ==> final(self)@ == old(self)@,
            (r is Err && r->Err_0 is DuplicateId) <==> contains_id(old(self)@, transaction@.id),
            r is Err ==> (r->Err_0 is DuplicateId || r->Err_0 is StorageError),
    {
        if self.holds_id(transaction.get_id()) {
            return Err(LedgerError::DuplicateId);
        }
        let row = encode_row(transaction);
        match execute_row(
            &self.connection,
            INSERT_SQL,
            row.0.as_str(),
            row.1,
            row.2.as_str(),
            row.3.as_str(),
            row.4.as_str(),
            row.5.as_str(),
        ) {
            Err(e) => Err(LedgerError::StorageError(StorageFault::Sqlite(e))),
            Ok(_) => {
                self.records.push(transaction.duplicate());
                proof {
                    assert(models_of(self.records@) =~= models_of(old(self).records@).push(transaction@));
                }
                Ok(())
            },
        }
    }

    /// Income minus expenses over every stored record, in cents, summed
    /// afresh on each call; zero for an empty store.
    pub fn get_balance(&self) -> (r: i128)
        ensures
            r as int == balance_of(self@),
    {
        let mut total: i128 = 0;
        let mut i: usize = 0;
        while i < self.records.len()
            invariant
                i <= self.records@.len(),
                total as int == balance_of(self@.take(i as int)),
                -(i as int) * 0x8000_0000_0000_0000 <= total <= (i as int) * 0x8000_0000_0000_0000,
            decreases self.records@.len() - i,
        {
            let t = &self.records[i];
            let amount = t.get_amount() as i128;
            proof {
                assert(self@.take(i as int + 1).drop_last() =~= self@.take(i as int));
                assert(self@[i as int] == t@);
            }
            match t.get_operation() {
                TransactionType::Income => total = total + amount,
                TransactionType::Expense => total = total - amount,
            }
            i = i + 1;
        }
        proof {
            assert(self@.take(i as int) =~= self@);
        }
        total
    }

    /// Every stored record, in storage order; empty for an empty store.
    pub fn get_all_transactions(&self) -> (r: Vec<Transaction>)
        ensures
            models_of(r@) == self@,
    {
        let mut all: Vec<Transaction> = Vec::new();
        let mut i: usize = 0;
        while i < self.records.len()
            invariant
                i <= self.records@.len(),
                models_of(all@) == self@.take(i as int),
            decreases self.records@.len() - i,
        {
            let t = self.records[i].duplicate();
            proof {
                assert(self@[i as int] == t@);
                assert(models_of(all@.push(t)).drop_last() =~= models_of(all@));
            }
            all.push(t);
            proof {
                assert(models_of(all@) =~= self@.take(i as int + 1));
            }
            i = i + 1;
        }
        proof {
            assert(self@.take(i as int) =~= self@);
        }
        all
    }
}

} // verus!
