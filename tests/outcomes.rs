use bucket_list_app::bucket_list::repository::{
    decode_bucket_rows, listing_from, BucketListRepositoryError,
};
use bucket_list_app::db::{Fetched, SqlCell, SqliteClient};
use bucket_list_app::user::model::IdUsername;
use bucket_list_app::user::repository::{
    id_password_from, id_username_from, presence_from, UserRepository, UserRepositoryError,
};
use bucket_list_app::user::route::{login_response, session_cookie};
use bucket_list_app::user::service::{issued_token, user_context_from, PasswordHashing};

struct PlainHashing;

impl PasswordHashing for PlainHashing {
    fn hash_password(&self, password: &str) -> Option<Vec<u8>> {
        Some(password.as_bytes().to_vec())
    }

    fn verify_password(&self, hash: &Vec<u8>, password: &str) -> bool {
        hash.as_slice() == password.as_bytes()
    }
}

struct BrokenHashing;

impl PasswordHashing for BrokenHashing {
    fn hash_password(&self, _password: &str) -> Option<Vec<u8>> {
        None
    }

    fn verify_password(&self, _hash: &Vec<u8>, _password: &str) -> bool {
        false
    }
}

fn row(id: i64, stamp: &str) -> Vec<SqlCell> {
    vec![
        SqlCell::Integer(id),
        SqlCell::Text("Paris".to_string()),
        SqlCell::Text("See the tower".to_string()),
        SqlCell::Text(stamp.to_string()),
    ]
}

#[test]
fn no_rows_list_as_empty() {
    let items = decode_bucket_rows(&Vec::new()).expect("no rows is no error");
    assert!(items.is_empty());
    assert!(listing_from(&Fetched::Rows(Vec::new())).expect("ok").is_empty());
}

#[test]
fn one_bad_row_fails_the_whole_list() {
    let rows = vec![row(1, "2024-01-02 03:04:05"), vec![SqlCell::Null, SqlCell::Null, SqlCell::Null, SqlCell::Null], row(3, "2024-01-02 03:04:05")];
    assert_eq!(decode_bucket_rows(&rows).err(), Some(BucketListRepositoryError::RowValueError));
}

#[test]
fn every_row_is_kept_in_order() {
    let rows = vec![row(2, "2024-01-02 03:04:05"), row(1, "2024-01-02T03:04:05Z")];
    let items = decode_bucket_rows(&rows).expect("rows decode");
    assert_eq!(items.iter().map(|i| i.id).collect::<Vec<_>>(), vec![2, 1]);
    assert_eq!(items[0].timestamp, items[1].timestamp);
}

#[test]
fn timestamps_are_read_as_the_store_writes_them() {
    let rows = vec![
        row(1, "2024-01-02 03:04:05.250"),
        row(2, "2024-01-02 05:04:05+02:00"),
        row(3, "2024-01-02T03:04:05"),
    ];
    let items = decode_bucket_rows(&rows).expect("rows decode");
    assert!(items.iter().all(|i| i.timestamp == 1_704_164_645));
}

#[test]
fn listing_maps_each_failure() {
    assert_eq!(listing_from(&Fetched::LockFailed).err(), Some(BucketListRepositoryError::LockError));
    assert_eq!(listing_from(&Fetched::QueryFailed).err(), Some(BucketListRepositoryError::QueryError));
    assert_eq!(listing_from(&Fetched::RowFailed).err(), Some(BucketListRepositoryError::RowValueError));
}

#[test]
fn first_row_outcomes_map_to_errors() {
    assert_eq!(id_username_from(&Fetched::LockFailed).err(), Some(UserRepositoryError::LockError));
    assert_eq!(id_username_from(&Fetched::QueryFailed).err(), Some(UserRepositoryError::QueryError));
    assert_eq!(id_username_from(&Fetched::RowFailed).err(), Some(UserRepositoryError::RowValueError));
    assert_eq!(id_username_from(&Fetched::Rows(vec![])).err(), Some(UserRepositoryError::NotFoundError));
    let bad = Fetched::Rows(vec![vec![SqlCell::Text("1".to_string()), SqlCell::Text("a".to_string())]]);
    assert_eq!(id_username_from(&bad).err(), Some(UserRepositoryError::RowValueError));
    let good = Fetched::Rows(vec![vec![SqlCell::Integer(4), SqlCell::Text("dora".to_string())]]);
    let u = id_username_from(&good).expect("decodes");
    assert_eq!((u.id, u.username.as_str()), (4, "dora"));
    let pw = Fetched::Rows(vec![vec![SqlCell::Integer(4), SqlCell::Blob(vec![9])]]);
    assert_eq!(id_password_from(&pw).expect("decodes").password, vec![9]);
    assert!(presence_from(&pw).is_ok());
    assert_eq!(presence_from(&Fetched::Rows(vec![])), Err(UserRepositoryError::NotFoundError));
}

#[test]
fn lookup_outcome_gives_account_or_visitor() {
    let u = user_context_from(Ok(IdUsername { id: 8, username: "erin".to_string() }));
    assert!(u.is_user);
    assert_eq!((u.id, u.username.as_str()), (8, "erin"));
    for e in [
        UserRepositoryError::NotFoundError,
        UserRepositoryError::QueryError,
        UserRepositoryError::RowValueError,
        UserRepositoryError::LockError,
    ] {
        let v = user_context_from(Err(e));
        assert!(!v.is_user);
        assert_eq!((v.id, v.username.as_str()), (0, "Visitor"));
    }
}

#[test]
fn token_issued_only_when_verified_and_stored() {
    assert_eq!(issued_token(true, "t".to_string(), Ok(())), Some("t".to_string()));
    assert_eq!(issued_token(false, "t".to_string(), Ok(())), None);
    assert_eq!(issued_token(true, "t".to_string(), Err(UserRepositoryError::QueryError)), None);
}

#[test]
fn login_answer_carries_the_issued_token() {
    let answer = login_response(Some("abc".to_string()));
    let cookie = answer.set_cookie.expect("cookie set");
    assert_eq!(cookie.value, "abc");
    assert_eq!(answer.redirect.location, "/user/");
    assert!(login_response(None).set_cookie.is_none());
    assert_eq!(session_cookie("x".to_string()).max_age_seconds, 2_592_000);
}

#[test]
fn new_store_has_default_account() {
    let client = SqliteClient::new(":memory:".to_string(), false, &PlainHashing).ok().expect("opens");
    let repo = UserRepository::new(client);
    let found = repo.get_user_password("default".to_string()).expect("default account exists");
    assert!(PlainHashing.verify_password(&found.password, "banana"));
}

#[test]
fn failed_hashing_fails_the_bootstrap() {
    let r = SqliteClient::new(":memory:".to_string(), false, &BrokenHashing);
    assert!(matches!(r, Err(bucket_list_app::db::SqliteClientError::InitFailed)));
}
