use vstd::prelude::*;

use crate::dependency::{DependencyError, DependencyFlagData, DependencyGlobalContext, FromGlobalContext};
use crate::db::{
    account_params, execute, fetch, integer_param, lock_connection, text_param, text_params, Fetched,
    SqlCell, SqlParam, SqliteClient,
};
use crate::user::model::{IdPassword, IdUsername};

verus! {

/// Why a storage operation on accounts or sessions failed.
#[derive(Debug, PartialEq, Eq, Structural)]
pub enum UserRepositoryError {
    QueryError,
    RowValueError,
    LockError,
    NotFoundError,
}

/// A row of (integer id, text name), as a value.
pub open spec fn id_username_row(cells: Seq<SqlCell>) -> Option<(i64, Seq<char>)> {
    if cells.len() == 2 && cells[0] is Integer && cells[1] is Text {
        Some((cells[0]->Integer_0, cells[1]->Text_0@))
    } else {
        None
    }
}

/// A row of (integer id, blob password), as a value.
pub open spec fn id_password_row(cells: Seq<SqlCell>) -> Option<(i64, Seq<u8>)> {
    if cells.len() == 2 && cells[0] is Integer && cells[1] is Blob {
        Some((cells[0]->Integer_0, cells[1]->Blob_0@))
    } else {
        None
    }
}

/// Reads an (id, username) row; `None` when a column has the wrong type.
pub fn decode_id_username(cells: &Vec<SqlCell>) -> (r: Option<IdUsername>)
    ensures
        id_username_row(cells@) is None <==> r is None,
        r matches Some(u) ==> id_username_row(cells@) == Some((u.id, u.username@)),
{
    if cells.len() != 2 {
        return None;
    }
    match (&cells[0], &cells[1]) {
        (SqlCell::Integer(id), SqlCell::Text(username)) => Some(
            IdUsername { id: *id, username: username.clone() },
        ),
        _ => None,
    }
}

/// Reads an (id, password) row; `None` when a column has the wrong type.
pub fn decode_id_password(cells: &Vec<SqlCell>) -> (r: Option<IdPassword>)
    ensures
        id_password_row(cells@) is None <==> r is None,
        r matches Some(p) ==> id_password_row(cells@) == Some((p.id, p.password@)),
{
    if cells.len() != 2 {
        return None;
    }
    match (&cells[0], &cells[1]) {
        (SqlCell::Integer(id), SqlCell::Blob(password)) => Some(
            IdPassword { id: *id, password: password.clone() },
        ),
        _ => None,
    }
}

/// The error of a lookup that wants the first row: a poisoned lock is
/// `LockError`, a statement that could not start is `QueryError`, a row that
/// could not be fetched is `RowValueError`, and no row at all is `NotFoundError`.
pub open spec fn first_row_error(fetched: Fetched) -> Option<UserRepositoryError> {
    match fetched {
        Fetched::LockFailed => Some(UserRepositoryError::LockError),
        Fetched::QueryFailed => Some(UserRepositoryError::QueryError),
        Fetched::RowFailed => Some(UserRepositoryError::RowValueError),
        Fetched::Rows(rows) => if rows@.len() == 0 {
            Some(UserRepositoryError::NotFoundError)
        } else {
            None
        },
    }
}

/// The first row fetched, when there is one.
pub open spec fn first_cells(fetched: Fetched) -> Seq<SqlCell> {
    match fetched {
        Fetched::Rows(rows) => rows@[0]@,
        _ => Seq::empty(),
    }
}

/// The first row of what the store gave, or the error of `first_row_error`.
fn first_row_of(fetched: &Fetched) -> (r: Result<&Vec<SqlCell>, UserRepositoryError>)
    ensures
        first_row_error(*fetched) matches Some(e) ==> r == Err::<&Vec<SqlCell>, UserRepositoryError>(e),
        first_row_error(*fetched) is None ==> (r matches Ok(c) && c@ == first_cells(*fetched)),
{
    match fetched {
        Fetched::LockFailed => Err(UserRepositoryError::LockError),
        Fetched::QueryFailed => Err(UserRepositoryError::QueryError),
        Fetched::RowFailed => Err(UserRepositoryError::RowValueError),
        Fetched::Rows(rows) => if rows.len() == 0 {
            Err(UserRepositoryError::NotFoundError)
        } else {
            Ok(&rows[0])
        },
    }
}

/// The account of the first row of what the store gave; a row of the wrong
/// shape is `RowValueError`.
pub fn id_username_from(fetched: &Fetched) -> (r: Result<IdUsername, UserRepositoryError>)
    ensures
        first_row_error(*fetched) matches Some(e) ==> r == Err::<IdUsername, UserRepositoryError>(e),
        first_row_error(*fetched) is None ==> {
            &&& r is Ok <==> id_username_row(first_cells(*fetched)) is Some
            &&& r matches Ok(u) ==> id_username_row(first_cells(*fetched)) == Some((u.id, u.username@))
            &&& r is Err ==> r == Err::<IdUsername, UserRepositoryError>(UserRepositoryError::RowValueError)
        },
{
    let cells = first_row_of(fetched)?;
    match decode_id_username(cells) {
        Some(u) => Ok(u),
        None => Err(UserRepositoryError::RowValueError),
    }
}

/// The id and password hash of the first row of what the store gave; a row of
/// the wrong shape is `RowValueError`.
pub fn id_password_from(fetched: &Fetched) -> (r: Result<IdPassword, UserRepositoryError>)
    ensures
        first_row_error(*fetched) matches Some(e) ==> r == Err::<IdPassword, UserRepositoryError>(e),
        first_row_error(*fetched) is None ==> {
            &&& r is Ok <==> id_password_row(first_cells(*fetched)) is Some
            &&& r matches Ok(p) ==> id_password_row(first_cells(*fetched)) == Some((p.id, p.password@))
            &&& r is Err ==> r == Err::<IdPassword, UserRepositoryError>(UserRepositoryError::RowValueError)
        },
{
    let cells = first_row_of(fetched)?;
    match decode_id_password(cells) {
        Some(p) => Ok(p),
        None => Err(UserRepositoryError::RowValueError),
    }
}

/// `Ok` when the store gave a first row, else the error of `first_row_error`.
pub fn presence_from(fetched: &Fetched) -> (r: Result<(), UserRepositoryError>)
    ensures
        first_row_error(*fetched) matches Some(e) ==> r == Err::<(), UserRepositoryError>(e),
        first_row_error(*fetched) is None ==> r is Ok,
{
    let _cells = first_row_of(fetched)?;
    Ok(())
}

/// The parameters of a new session: its token, then the account id.
pub fn token_params(token: String, user_id: i64) -> (r: Vec<SqlParam>)
    ensures
        r@.len() == 2,
        text_param(r@[0], token@),
        integer_param(r@[1], user_id),
{
    let mut params: Vec<SqlParam> = Vec::new();
    params.push(SqlParam::Text(token));
    params.push(SqlParam::Integer(user_id));
    params
}

/// Runs one changing statement.
fn run(client: &SqliteClient, sql: &str, params: Vec<SqlParam>) -> (r: Result<(), UserRepositoryError>)
    ensures
        r is Err ==> r == Err::<(), UserRepositoryError>(UserRepositoryError::LockError) || r == Err::<
            (),
            UserRepositoryError,
        >(UserRepositoryError::QueryError),
{
    let guard = match lock_connection(client.get_conn()) {
        Some(g) => g,
        None => return Err(UserRepositoryError::LockError),
    };
    match execute(&guard, sql, params) {
        Ok(_) => Ok(()),
        Err(_) => Err(UserRepositoryError::QueryError),
    }
}

/// Accounts and their sessions in the store.
pub struct UserRepository {
    sqlite_client: SqliteClient,
}

impl UserRepository {
    pub fn new(sqlite_client: SqliteClient) -> Self {
        Self { sqlite_client }
    }

    /// Records `token` as a session of account `user_id`.
    pub fn add_token(&self, token: String, user_id: i64) -> (r: Result<(), UserRepositoryError>)
        ensures
            r is Err ==> r == Err::<(), UserRepositoryError>(UserRepositoryError::LockError) || r
                == Err::<(), UserRepositoryError>(UserRepositoryError::QueryError),
    {
        run(&self.sqlite_client, "INSERT INTO tokens (token, user_id) VALUES (?1, ?2)", token_params(token, user_id))
    }

    /// Ends the session `token`.
    pub fn delete_token(&self, token: String) -> (r: Result<(), UserRepositoryError>)
        ensures
            r is Err ==> r == Err::<(), UserRepositoryError>(UserRepositoryError::LockError) || r
                == Err::<(), UserRepositoryError>(UserRepositoryError::QueryError),
    {
        run(&self.sqlite_client, "DELETE FROM tokens WHERE token = ?1", text_params(token))
    }

    /// The account that owns the session `token`.
    /// The outcome of each step is mapped as `id_username_from` states.
    pub fn find_by_token(&self, token: String) -> (r: Result<IdUsername, UserRepositoryError>)
        ensures
            r matches Ok(u) ==> exists|cells: Seq<SqlCell>| #[trigger] id_username_row(cells) == Some(
                (u.id, u.username@),
            ),
    {
        let fetched = fetch(
            &self.sqlite_client,
            "SELECT users.id, users.username FROM tokens JOIN users ON users.id = tokens.user_id WHERE tokens.token = ?1",
            text_params(token),
            2,
            1,
        );
        id_username_from(&fetched)
    }

    /// The id and stored password hash of the account `username`.
    /// The outcome of each step is mapped as `id_password_from` states.
    pub fn get_user_password(&self, username: String) -> (r: Result<IdPassword, UserRepositoryError>)
        ensures
            r matches Ok(p) ==> exists|cells: Seq<SqlCell>| #[trigger] id_password_row(cells) == Some(
                (p.id, p.password@),
            ),
    {
        let fetched = fetch(
            &self.sqlite_client,
            "SELECT id, password FROM users WHERE username = ?1",
            text_params(username),
            2,
            1,
        );
        id_password_from(&fetched)
    }

    /// `Ok` when an account named `username` exists; `NotFoundError` when none does.
    /// The outcome of each step is mapped as `presence_from` states.
    pub fn username_taken(&self, username: String) -> (r: Result<(), UserRepositoryError>) {
        let fetched = fetch(
            &self.sqlite_client,
            "SELECT id FROM users WHERE username = ?1",
            text_params(username),
            1,
            1,
        );
        presence_from(&fetched)
    }

    /// Creates the account `username` with the password hash `password`.
    pub fn register_user(&self, username: String, password: Vec<u8>) -> (r: Result<(), UserRepositoryError>)
        ensures
            r is Err ==> r == Err::<(), UserRepositoryError>(UserRepositoryError::LockError) || r
                == Err::<(), UserRepositoryError>(UserRepositoryError::QueryError),
    {
        run(
            &self.sqlite_client,
            "INSERT INTO users (username, password) VALUES (?1, ?2)",
            account_params(username, password),
        )
    }
}

impl FromGlobalContext for UserRepository {
    fn from_global_context(
        dependency_global_context: &DependencyGlobalContext<'_>,
        flag: &DependencyFlagData,
    ) -> Result<Self, DependencyError> {
        Ok(Self::new(dependency_global_context.inject(flag)?))
    }
}

} // verus!
