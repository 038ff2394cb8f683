use std::sync::{Arc, Mutex, MutexGuard};
use vstd::prelude::*;
use vstd::string::*;

use rusqlite::types::Value;
use rusqlite::{Connection, Rows, Statement};

use crate::user::service::PasswordHashing;

verus! {

#[verifier::external_type_specification]
#[verifier::external_body]
pub struct ExConnection(Connection);

#[verifier::external_type_specification]
#[verifier::external_body]
pub struct ExSqlError(rusqlite::Error);

#[verifier::external_type_specification]
#[verifier::external_body]
pub struct ExStatement<'conn>(Statement<'conn>);

#[verifier::external_type_specification]
#[verifier::external_body]
pub struct ExRows<'stmt>(Rows<'stmt>);

#[verifier::external_type_specification]
#[verifier::external_body]
#[verifier::reject_recursive_types(T)]
pub struct ExMutex<T: ?Sized>(Mutex<T>);

#[verifier::external_type_specification]
#[verifier::external_body]
#[verifier::reject_recursive_types(T)]
pub struct ExMutexGuard<'a, T: ?Sized + 'a>(MutexGuard<'a, T>);

/// A value handed to a statement.
#[derive(Debug)]
pub enum SqlParam {
    Integer(i64),
    Text(String),
    Blob(Vec<u8>),
}

/// A value read from a result row. The payload of a floating-point value is not kept.
#[derive(Debug)]
pub enum SqlCell {
    Null,
    Integer(i64),
    Real,
    Text(String),
    Blob(Vec<u8>),
}

/// Relies on rusqlite's `Connection::open`: opens (or creates) the database file.
#[verifier::external_body]
fn open_connection(path: &str) -> (r: Result<Connection, rusqlite::Error>) {
    Connection::open(path)
}

/// Relies on rusqlite's `Connection::execute_batch`: runs several statements.
#[verifier::external_body]
fn execute_batch(conn: &Connection, sql: &str) -> (r: Result<(), rusqlite::Error>) {
    conn.execute_batch(sql)
}

/// Relies on std's `Mutex::new`.
#[verifier::external_body]
fn new_mutex(conn: Connection) -> (r: Mutex<Connection>) {
    Mutex::new(conn)
}

/// Relies on std's `Mutex::lock`: `None` when the lock is poisoned.
#[verifier::external_body]
pub(crate) fn lock_connection(m: &Mutex<Connection>) -> (r: Option<MutexGuard<'_, Connection>>) {
    m.lock().ok()
}

/// Relies on rusqlite's `Connection::execute` (with `params_from_iter` for the
/// positional parameters): runs one statement and returns the number of rows changed.
#[verifier::external_body]
pub(crate) fn execute(conn: &MutexGuard<'_, Connection>, sql: &str, params: Vec<SqlParam>) -> (r: Result<
    usize,
    rusqlite::Error,
>) {
    let values = params.into_iter().map(|p| match p {
        SqlParam::Integer(i) => Value::Integer(i),
        SqlParam::Text(s) => Value::Text(s),
        SqlParam::Blob(b) => Value::Blob(b),
    });
    conn.execute(sql, rusqlite::params_from_iter(values))
}

/// Relies on rusqlite's `Connection::prepare`: compiles one statement.
#[verifier::external_body]
pub(crate) fn prepare<'a>(conn: &'a MutexGuard<'_, Connection>, sql: &str) -> (r: Result<
    Statement<'a>,
    rusqlite::Error,
>) {
    conn.prepare(sql)
}

/// Relies on rusqlite's `Statement::query` (with `params_from_iter` for the
/// positional parameters): starts the statement.
#[verifier::external_body]
pub(crate) fn query<'a>(stmt: &'a mut Statement<'_>, params: Vec<SqlParam>) -> (r: Result<
    Rows<'a>,
    rusqlite::Error,
>) {
    let values = params.into_iter().map(|p| match p {
        SqlParam::Integer(i) => Value::Integer(i),
        SqlParam::Text(s) => Value::Text(s),
        SqlParam::Blob(b) => Value::Blob(b),
    });
    stmt.query(rusqlite::params_from_iter(values))
}

/// Relies on rusqlite's `Rows::next`, and `Row::get` read as a `Value` for each
/// column: the next row as its first `columns` values, or `None` after the last row.
/// Reading a column fails when the row has fewer than `columns`.
#[verifier::external_body]
pub(crate) fn next_row(rows: &mut Rows<'_>, columns: usize) -> (r: Result<Option<Vec<SqlCell>>, rusqlite::Error>)
    ensures
        r matches Ok(Some(cells)) ==> cells@.len() == columns,
{
    match rows.next()? {
        None => Ok(None),
        Some(row) => (0..columns).map(|i| row.get::<usize, Value>(i).map(|v| match v {
            Value::Null => SqlCell::Null,
            Value::Integer(n) => SqlCell::Integer(n),
            Value::Real(_) => SqlCell::Real,
            Value::Text(s) => SqlCell::Text(s),
            Value::Blob(b) => SqlCell::Blob(b),
        })).collect::<Result<Vec<SqlCell>, rusqlite::Error>>().map(Some),
    }
}

/// `p` is the text `s`.
pub open spec fn text_param(p: SqlParam, s: Seq<char>) -> bool {
    p matches SqlParam::Text(t) && t@ == s
}

/// `p` is the integer `i`.
pub open spec fn integer_param(p: SqlParam, i: i64) -> bool {
    p matches SqlParam::Integer(n) && n == i
}

/// `p` is the blob `b`.
pub open spec fn blob_param(p: SqlParam, b: Seq<u8>) -> bool {
    p matches SqlParam::Blob(x) && x@ == b
}

/// The parameters of a new account: its name, then its password hash.
pub fn account_params(username: String, password: Vec<u8>) -> (r: Vec<SqlParam>)
    ensures
        r@.len() == 2,
        text_param(r@[0], username@),
        blob_param(r@[1], password@),
{
    let mut params: Vec<SqlParam> = Vec::new();
    params.push(SqlParam::Text(username));
    params.push(SqlParam::Blob(password));
    params
}

/// The single parameter `text`.
pub fn text_params(text: String) -> (r: Vec<SqlParam>)
    ensures
        r@.len() == 1,
        text_param(r@[0], text@),
{
    let mut params: Vec<SqlParam> = Vec::new();
    params.push(SqlParam::Text(text));
    params
}

/// What a query gave, as far as the store got.
#[derive(Debug)]
pub enum Fetched {
    /// The lock on the connection was poisoned.
    LockFailed,
    /// The statement could not be prepared or started.
    QueryFailed,
    /// A row could not be read.
    RowFailed,
    /// The rows read, in order.
    Rows(Vec<Vec<SqlCell>>),
}

/// Every row has `columns` values.
pub open spec fn rows_have_columns(rows: Seq<Vec<SqlCell>>, columns: nat) -> bool {
    forall|i: int| 0 <= i < rows.len() ==> (#[trigger] rows[i])@.len() == columns
}

/// Runs the query `sql` and reads at most `max_rows` rows of `columns` values.
pub(crate) fn fetch(
    client: &SqliteClient,
    sql: &str,
    params: Vec<SqlParam>,
    columns: usize,
    max_rows: usize,
) -> (r: Fetched)
    ensures
        r matches Fetched::Rows(rows) ==> rows@.len() <= max_rows && rows_have_columns(
            rows@,
            columns as nat,
        ),
{
    let guard = match lock_connection(client.get_conn()) {
        Some(g) => g,
        None => return Fetched::LockFailed,
    };
    let mut stmt = match prepare(&guard, sql) {
        Ok(s) => s,
        Err(_) => return Fetched::QueryFailed,
    };
    let mut rows = match query(&mut stmt, params) {
        Ok(rows) => rows,
        Err(_) => return Fetched::QueryFailed,
    };
    let mut read: Vec<Vec<SqlCell>> = Vec::new();
    while read.len() < max_rows
        invariant
            read@.len() <= max_rows,
            rows_have_columns(read@, columns as nat),
        decreases max_rows - read@.len(),
    {
        match next_row(&mut rows, columns) {
            Ok(None) => return Fetched::Rows(read),
            Ok(Some(cells)) => {
                read.push(cells);
                assert(rows_have_columns(read@, columns as nat)) by {
                    assert forall|i: int| 0 <= i < read@.len() implies (#[trigger] read@[i])@.len()
                        == columns by {
                        if i < read@.len() - 1 {
                            assert(read@[i] == read@.drop_last()[i]);
                        }
                    }
                }
            },
            Err(_) => return Fetched::RowFailed,
        }
    }
    Fetched::Rows(read)
}

/// The schema created when the database file is new.
pub const SCHEMA: &'static str = "CREATE TABLE IF NOT EXISTS users (id INTEGER PRIMARY KEY AUTOINCREMENT, username TEXT NOT NULL UNIQUE, password BLOB NOT NULL); CREATE TABLE IF NOT EXISTS tokens (token TEXT PRIMARY KEY, user_id INTEGER NOT NULL REFERENCES users(id)); CREATE TABLE IF NOT EXISTS bucket_list (id INTEGER PRIMARY KEY AUTOINCREMENT, name TEXT NOT NULL, description TEXT NOT NULL, timestamp TEXT NOT NULL DEFAULT CURRENT_TIMESTAMP);";

/// Why the store could not be opened.
#[derive(Debug, PartialEq, Eq, Structural)]
pub enum SqliteClientError {
    SqliteFileEmpty,
    Connection,
    InitFailed,
}

/// Adds the account `default` with the password `banana`; false when that fails.
fn seed_default_account<H: PasswordHashing>(client: &SqliteClient, hashing: &H) -> (r: bool) {
    let hash = match hashing.hash_password("banana") {
        Some(h) => h,
        None => return false,
    };
    let guard = match lock_connection(client.get_conn()) {
        Some(g) => g,
        None => return false,
    };
    execute(
        &guard,
        "INSERT INTO users (username, password) VALUES (?1, ?2)",
        account_params(String::from_str("default"), hash),
    ).is_ok()
}

/// The one connection to the store, shared and used by one caller at a time.
#[derive(Clone)]
pub struct SqliteClient(Arc<Mutex<Connection>>);

impl SqliteClient {
    /// Opens the store at `sqlite_path`. When the file did not exist before
    /// (`file_exists` is false) the schema is created and the account `default`
    /// is added with the password `banana`, hashed by `hashing`. An empty path is
    /// refused before anything is opened.
    pub fn new<H: PasswordHashing>(sqlite_path: String, file_exists: bool, hashing: &H) -> (r: Result<
        Self,
        SqliteClientError,
    >)
        ensures
            sqlite_path@.len() == 0 <==> r == Err::<Self, SqliteClientError>(
                SqliteClientError::SqliteFileEmpty,
            ),
            r == Err::<Self, SqliteClientError>(SqliteClientError::InitFailed) ==> !file_exists,
    {
        if sqlite_path.as_str().unicode_len() == 0 {
            return Err(SqliteClientError::SqliteFileEmpty);
        }
        let conn = match open_connection(sqlite_path.as_str()) {
            Ok(c) => c,
            Err(_) => return Err(SqliteClientError::Connection),
        };
        if !file_exists {
            if execute_batch(&conn, SCHEMA).is_err() {
                return Err(SqliteClientError::InitFailed);
            }
        }
        let client = SqliteClient(Arc::new(new_mutex(conn)));
        if !file_exists {
            if !seed_default_account(&client, hashing) {
                return Err(SqliteClientError::InitFailed);
            }
        }
        Ok(client)
    }

    pub fn get_conn(&self) -> &Mutex<Connection> {
        &self.0
    }
}

} // verus!
