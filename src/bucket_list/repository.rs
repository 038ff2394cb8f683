use vstd::prelude::*;

use crate::bucket_list::model::{AddToBucketListValidated, BucketListItem};
use crate::dependency::{DependencyError, DependencyFlagData, DependencyGlobalContext, FromGlobalContext};
use crate::error::ErrorStatus;
use crate::db::{execute, fetch, lock_connection, text_param, Fetched, SqlCell, SqlParam, SqliteClient};

verus! {

/// Why a storage operation on the bucket list failed.
#[derive(Debug, PartialEq, Eq, Structural)]
pub enum BucketListRepositoryError {
    QueryError,
    RowValueError,
    LockError,
}

impl ErrorStatus for BucketListRepositoryError {
    /// Every storage failure is reported as 500.
    open spec fn status(&self) -> u16 {
        500
    }

    fn error_status(&self) -> (r: u16) {
        500
    }
}

/// Seconds since the Unix epoch of a stored timestamp text, read as UTC.
pub uninterp spec fn utc_seconds_of(text: Seq<char>) -> Option<i64>;

/// Relies on rusqlite's `FromSql for DateTime<Utc>` on a text value (RFC 3339
/// with a space or `T`, optional fractional seconds and offset, or a bare
/// date-time read as UTC): the result depends on the text alone.
#[verifier::external_body]
fn parse_utc_seconds(text: &str) -> (r: Option<i64>)
    ensures
        r == utc_seconds_of(text@),
{
    <chrono::DateTime<chrono::Utc> as rusqlite::types::FromSql>::column_result(
        rusqlite::types::ValueRef::Text(text.as_bytes()),
    ).ok().map(|t| t.timestamp())
}

/// A row of (integer id, text name, text description, text timestamp), as a value.
pub open spec fn bucket_row(cells: Seq<SqlCell>) -> Option<(i64, Seq<char>, Seq<char>, i64)> {
    if cells.len() == 4 && cells[0] is Integer && cells[1] is Text && cells[2] is Text
        && cells[3] is Text && utc_seconds_of(cells[3]->Text_0@) is Some {
        Some(
            (
                cells[0]->Integer_0,
                cells[1]->Text_0@,
                cells[2]->Text_0@,
                utc_seconds_of(cells[3]->Text_0@)->Some_0,
            ),
        )
    } else {
        None
    }
}

/// Reads a bucket-list row; `None` when a column has the wrong type or the
/// timestamp cannot be read.
pub fn decode_bucket_row(cells: &Vec<SqlCell>) -> (r: Option<BucketListItem>)
    ensures
        bucket_row(cells@) is None <==> r is None,
        r matches Some(item) ==> bucket_row(cells@) == Some(
            (item.id, item.name@, item.description@, item.timestamp),
        ),
{
    if cells.len() != 4 {
        return None;
    }
    match (&cells[0], &cells[1], &cells[2], &cells[3]) {
        (
            SqlCell::Integer(id),
            SqlCell::Text(name),
            SqlCell::Text(description),
            SqlCell::Text(stamp),
        ) => match parse_utc_seconds(stamp.as_str()) {
            Some(timestamp) => Some(
                BucketListItem {
                    id: *id,
                    name: name.clone(),
                    description: description.clone(),
                    timestamp,
                },
            ),
            None => None,
        },
        _ => None,
    }
}

/// The views of fetched rows.
pub open spec fn cells_view(rows: Seq<Vec<SqlCell>>) -> Seq<Seq<SqlCell>> {
    rows.map_values(|v: Vec<SqlCell>| v@)
}

/// Each of `items` is the reading of the row of `rows` at the same place, and
/// every row is read.
pub open spec fn read_from_rows(items: Seq<BucketListItem>, rows: Seq<Seq<SqlCell>>) -> bool {
    &&& rows.len() == items.len()
    &&& forall|i: int|
        0 <= i < rows.len() ==> bucket_row(#[trigger] rows[i]) == Some(
            (items[i].id, items[i].name@, items[i].description@, items[i].timestamp),
        )
}

/// Every row can be read as an entry.
pub open spec fn all_rows_read(rows: Seq<Seq<SqlCell>>) -> bool {
    forall|i: int| 0 <= i < rows.len() ==> bucket_row(#[trigger] rows[i]) is Some
}

/// Reads every row as an entry, in order. Strict: one row that cannot be read
/// fails the whole list with `RowValueError`; no rows give an empty list.
pub fn decode_bucket_rows(rows: &Vec<Vec<SqlCell>>) -> (r: Result<
    Vec<BucketListItem>,
    BucketListRepositoryError,
>)
    ensures
        r is Ok <==> all_rows_read(cells_view(rows@)),
        r matches Ok(items) ==> read_from_rows(items@, cells_view(rows@)),
        r is Err ==> r == Err::<Vec<BucketListItem>, BucketListRepositoryError>(
            BucketListRepositoryError::RowValueError,
        ),
{
    let ghost v = cells_view(rows@);
    let mut items: Vec<BucketListItem> = Vec::new();
    let mut i: usize = 0;
    while i < rows.len()
        invariant
            i <= rows@.len(),
            v == cells_view(rows@),
            read_from_rows(items@, v.subrange(0, i as int)),
            all_rows_read(v.subrange(0, i as int)),
        decreases rows@.len() - i,
    {
        match decode_bucket_row(&rows[i]) {
            Some(item) => {
                let ghost before = items@;
                items.push(item);
                proof {
                    let w = v.subrange(0, i + 1);
                    assert forall|k: int| 0 <= k < w.len() implies bucket_row(#[trigger] w[k])
                        == Some(
                        (items@[k].id, items@[k].name@, items@[k].description@, items@[k].timestamp),
                    ) by {
                        if k < i {
                            assert(w[k] == v.subrange(0, i as int)[k]);
                            assert(items@[k] == before[k]);
                        }
                    }
                    assert forall|k: int| 0 <= k < w.len() implies bucket_row(#[trigger] w[k]) is Some by {
                        if k < i {
                            assert(w[k] == v.subrange(0, i as int)[k]);
                        }
                    }
                }
            },
            None => {
                assert(bucket_row(v[i as int]) is None);
                return Err(BucketListRepositoryError::RowValueError);
            },
        }
        i = i + 1;
    }
    assert(v.subrange(0, i as int) =~= v);
    Ok(items)
}

/// The listing for what the store gave: a poisoned lock is `LockError`, a
/// statement that could not start is `QueryError`, a row that could not be
/// fetched is `RowValueError`, and fetched rows are read strictly.
pub fn listing_from(fetched: &Fetched) -> (r: Result<Vec<BucketListItem>, BucketListRepositoryError>)
    ensures
        fetched is LockFailed ==> r == Err::<Vec<BucketListItem>, BucketListRepositoryError>(
            BucketListRepositoryError::LockError,
        ),
        fetched is QueryFailed ==> r == Err::<Vec<BucketListItem>, BucketListRepositoryError>(
            BucketListRepositoryError::QueryError,
        ),
        fetched is RowFailed ==> r == Err::<Vec<BucketListItem>, BucketListRepositoryError>(
            BucketListRepositoryError::RowValueError,
        ),
        fetched matches Fetched::Rows(rows) ==> {
            &&& r is Ok <==> all_rows_read(cells_view(rows@))
            &&& r matches Ok(items) ==> read_from_rows(items@, cells_view(rows@))
            &&& r is Err ==> r == Err::<Vec<BucketListItem>, BucketListRepositoryError>(
                BucketListRepositoryError::RowValueError,
            )
        },
{
    match fetched {
        Fetched::LockFailed => Err(BucketListRepositoryError::LockError),
        Fetched::QueryFailed => Err(BucketListRepositoryError::QueryError),
        Fetched::RowFailed => Err(BucketListRepositoryError::RowValueError),
        Fetched::Rows(rows) => decode_bucket_rows(rows),
    }
}

/// What holds of a listing whatever the store held: an `Ok` list reads, in
/// order, every row of some result set.
pub open spec fn listing_outcome(r: Result<Vec<BucketListItem>, BucketListRepositoryError>) -> bool {
    r is Ok ==> exists|rows: Seq<Seq<SqlCell>>| #[trigger] read_from_rows(r->Ok_0@, rows)
}

/// The parameters of a new entry: its name, then its description.
pub fn entry_params(add_to_bucket_list: &AddToBucketListValidated) -> (r: Vec<SqlParam>)
    ensures
        r@.len() == 2,
        text_param(r@[0], add_to_bucket_list.name@),
        text_param(r@[1], add_to_bucket_list.description@),
{
    let mut params: Vec<SqlParam> = Vec::new();
    params.push(SqlParam::Text(String::from_str(add_to_bucket_list.name.as_str())));
    params.push(SqlParam::Text(String::from_str(add_to_bucket_list.description.as_str())));
    params
}

/// The bucket list in the store.
pub struct BucketListRepository {
    sqlite_client: SqliteClient,
}

impl BucketListRepository {
    pub fn new(sqlite_client: SqliteClient) -> Self {
        Self { sqlite_client }
    }

    /// Every entry, in order of id. Strict: one row that cannot be read fails
    /// the whole call with `RowValueError`, so no partial list is returned; the
    /// mapping of each outcome is `listing_from`.
    pub fn get_all_from_bucket_list(&self) -> (r: Result<Vec<BucketListItem>, BucketListRepositoryError>)
        ensures
            listing_outcome(r),
    {
        let fetched = fetch(
            &self.sqlite_client,
            "SELECT id, name, description, timestamp FROM bucket_list ORDER BY id",
            Vec::new(),
            4,
            usize::MAX,
        );
        let r = listing_from(&fetched);
        proof {
            if let Fetched::Rows(rows) = fetched {
                if r is Ok {
                    assert(read_from_rows(r->Ok_0@, cells_view(rows@)));
                }
            }
        }
        r
    }

    /// Stores a new entry with the validated name and description; the store
    /// gives it the next id and the current time.
    pub fn add_to_bucket_list(&self, add_to_bucket_list: &AddToBucketListValidated) -> (r: Result<
        (),
        BucketListRepositoryError,
    >)
        ensures
            r is Err ==> r == Err::<(), BucketListRepositoryError>(
                BucketListRepositoryError::LockError,
            ) || r == Err::<(), BucketListRepositoryError>(BucketListRepositoryError::QueryError),
    {
        let guard = match lock_connection(self.sqlite_client.get_conn()) {
            Some(g) => g,
            None => return Err(BucketListRepositoryError::LockError),
        };
        let params = entry_params(add_to_bucket_list);
        match execute(&guard, "INSERT INTO bucket_list (name, description) VALUES (?1, ?2)", params) {
            Ok(_) => Ok(()),
            Err(_) => Err(BucketListRepositoryError::QueryError),
        }
    }
}

impl FromGlobalContext for BucketListRepository {
    fn from_global_context(
        dependency_global_context: &DependencyGlobalContext<'_>,
        flag: &DependencyFlagData,
    ) -> Result<Self, DependencyError> {
        Ok(Self::new(dependency_global_context.inject(flag)?))
    }
}

} // verus!
