use bucket_list_app::bucket_list::model::AddToBucketList;
use bucket_list_app::bucket_list::repository::{decode_bucket_row, BucketListRepository};
use bucket_list_app::bucket_list::route::{add_bucket_list, all_bucket_list, AddBucketListRouteError};
use bucket_list_app::db::{SqlCell, SqliteClient, SqliteClientError};
use bucket_list_app::user::service::PasswordHashing;

/// Stores passwords reversed: enough to tell a match from a mismatch.
struct ReversedHashing;

impl PasswordHashing for ReversedHashing {
    fn hash_password(&self, password: &str) -> Option<Vec<u8>> {
        Some(password.bytes().rev().collect())
    }

    fn verify_password(&self, hash: &Vec<u8>, password: &str) -> bool {
        let expected: Vec<u8> = password.bytes().rev().collect();
        &expected == hash
    }
}


fn memory_store() -> SqliteClient {
    match SqliteClient::new(":memory:".to_string(), false, &ReversedHashing) {
        Ok(client) => client,
        Err(e) => panic!("in-memory store did not open: {:?}", e),
    }
}

fn request(name: &str, description: &str) -> AddToBucketList {
    AddToBucketList { name: name.to_string(), description: description.to_string() }
}

#[test]
fn empty_store_lists_nothing() {
    let repo = BucketListRepository::new(memory_store());
    let items = all_bucket_list(&repo).expect("listing an empty store succeeds");
    assert!(items.is_empty());
}

#[test]
fn added_entries_are_listed_with_increasing_ids() {
    let repo = BucketListRepository::new(memory_store());
    assert!(add_bucket_list(&request("Paris", "See the tower"), &repo).is_ok());
    assert!(add_bucket_list(&request("Paris", "See it again"), &repo).is_ok());
    let items = all_bucket_list(&repo).expect("listing succeeds");
    assert_eq!(items.len(), 2);
    assert_eq!(items[0].name, "Paris");
    assert_eq!(items[0].description, "See the tower");
    assert_eq!(items[1].name, "Paris");
    assert_eq!(items[1].description, "See it again");
    assert!(items[0].id < items[1].id);
    assert!(items[0].timestamp > 1_600_000_000);
}

#[test]
fn invalid_entry_is_not_stored() {
    let repo = BucketListRepository::new(memory_store());
    match add_bucket_list(&request("abc", ""), &repo) {
        Err(AddBucketListRouteError::Validate(e)) => {
            assert_eq!(e.0.len(), 2);
            assert_eq!(e.0[0].field_name(), "name");
            assert_eq!(e.0[0].messages(), &vec!["name must be at least 5 characters".to_string()]);
            assert_eq!(e.0[1].field_name(), "description");
            assert_eq!(e.0[1].messages(), &vec!["description is required".to_string()]);
        }
        other => panic!("expected a validation error, got {:?}", other),
    }
    assert!(all_bucket_list(&repo).expect("listing succeeds").is_empty());
}

#[test]
fn empty_store_path_is_refused() {
    assert!(matches!(SqliteClient::new(String::new(), false, &ReversedHashing), Err(SqliteClientError::SqliteFileEmpty)));
}

#[test]
fn row_with_wrong_types_is_rejected() {
    let cells = vec![
        SqlCell::Text("1".to_string()),
        SqlCell::Text("n".to_string()),
        SqlCell::Text("d".to_string()),
        SqlCell::Text("2024-01-02 03:04:05".to_string()),
    ];
    assert!(decode_bucket_row(&cells).is_none());
}

#[test]
fn row_timestamp_is_read_as_utc_seconds() {
    let cells = vec![
        SqlCell::Integer(7),
        SqlCell::Text("Paris".to_string()),
        SqlCell::Text("See the tower".to_string()),
        SqlCell::Text("2024-01-02 03:04:05".to_string()),
    ];
    let item = decode_bucket_row(&cells).expect("row decodes");
    assert_eq!(item.id, 7);
    assert_eq!(item.name, "Paris");
    assert_eq!(item.timestamp, 1_704_164_645);
}

#[test]
fn row_with_unreadable_timestamp_is_rejected() {
    let cells = vec![
        SqlCell::Integer(7),
        SqlCell::Text("Paris".to_string()),
        SqlCell::Text("See the tower".to_string()),
        SqlCell::Text("yesterday".to_string()),
    ];
    assert!(decode_bucket_row(&cells).is_none());
}
