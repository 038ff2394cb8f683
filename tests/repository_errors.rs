use bucket_list_app::db::{SqliteClient, SqliteClientError};
use bucket_list_app::user::repository::{UserRepository, UserRepositoryError};
use bucket_list_app::user::service::PasswordHashing;

/// Stores passwords reversed: enough to tell a match from a mismatch.
struct ReversedHashing;

impl PasswordHashing for ReversedHashing {
    fn hash_password(&self, password: &str) -> Option<Vec<u8>> {
        Some(password.bytes().rev().collect())
    }

    fn verify_password(&self, hash: &Vec<u8>, password: &str) -> bool {
        let expected: Vec<u8> = password.bytes().rev().collect();
        &expected == hash
    }
}


fn repo() -> UserRepository {
    UserRepository::new(SqliteClient::new(":memory:".to_string(), false, &ReversedHashing).ok().expect("opens"))
}

#[test]
fn unknown_token_is_not_found() {
    assert!(matches!(repo().find_by_token("nobody".to_string()), Err(UserRepositoryError::NotFoundError)));
}

#[test]
fn unknown_user_has_no_password() {
    let r = repo();
    assert!(matches!(r.get_user_password("nobody".to_string()), Err(UserRepositoryError::NotFoundError)));
    assert!(matches!(r.username_taken("nobody".to_string()), Err(UserRepositoryError::NotFoundError)));
}

#[test]
fn duplicate_token_is_a_query_error() {
    let r = repo();
    assert!(r.register_user("carol".to_string(), vec![1, 2]).is_ok());
    let found = r.get_user_password("carol".to_string()).expect("carol exists");
    assert_eq!(found.password, vec![1, 2]);
    assert!(r.username_taken("carol".to_string()).is_ok());
    assert!(r.add_token("t".to_string(), found.id).is_ok());
    assert_eq!(r.add_token("t".to_string(), found.id), Err(UserRepositoryError::QueryError));
    assert_eq!(r.register_user("carol".to_string(), vec![3]), Err(UserRepositoryError::QueryError));
    let u = r.find_by_token("t".to_string()).expect("session exists");
    assert_eq!(u.id, found.id);
    assert_eq!(u.username, "carol");
}

#[test]
fn store_in_missing_directory_cannot_connect() {
    let r = SqliteClient::new("/nonexistent-directory/sub/store.db".to_string(), false, &ReversedHashing);
    assert!(matches!(r, Err(SqliteClientError::Connection)));
}
