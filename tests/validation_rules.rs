use bucket_list_app::bucket_list::model::AddToBucketList;
use bucket_list_app::bucket_list::validate::Name;
use bucket_list_app::user::form::UserRegisterForm;
use bucket_list_app::user::validate::username::{username_taken_check, Username};
use bucket_list_app::user::validate::Password;
use bucket_list_app::utils::{EtagCheck, EtagStamp};
use bucket_list_app::validation::{
    StrValidationExtension, ValidateErrorItem, ValidateErrorItemTrait, ValidationErrorResponse,
    ValidationErrorsBuilder, ValidationErrorsMergeBuilder,
};

fn item(field: &str, messages: &[&str]) -> ValidateErrorItem {
    ValidateErrorItem::from_vec(field.to_string(), messages.iter().map(|m| m.to_string()).collect())
        .expect("messages are given")
}

fn messages_of<E: ValidateErrorItemTrait>(e: &E) -> (String, Vec<String>) {
    let item = e.get_validate_error_item().expect("an error carries its item");
    (item.field_name().to_string(), item.messages().clone())
}

#[test]
fn name_counts_grapheme_clusters_not_characters() {
    // Fifteen clusters of two characters each: thirty characters.
    let accented = "e\u{301}".repeat(15);
    assert!(Name::parse(accented, None).is_ok());
    let short = "e\u{301}".repeat(3);
    assert!(Name::parse(short, None).is_err());
}

#[test]
fn name_bounds_are_inclusive() {
    assert!(Name::parse("a".repeat(5), None).is_ok());
    assert!(Name::parse("a".repeat(20), None).is_ok());
    assert!(Name::parse("a".repeat(4), None).is_err());
}

#[test]
fn empty_name_only_says_required() {
    let e = Name::parse(String::new(), Some("title".to_string())).err().expect("rejected");
    assert_eq!(messages_of(&e), ("title".to_string(), vec!["title is required".to_string()]));
}

#[test]
fn username_label_turns_underscores_into_spaces() {
    let e = Username::parse(String::new(), Some("user_name".to_string())).err().expect("rejected");
    assert_eq!(messages_of(&e), ("user_name".to_string(), vec!["user name cannot be empty".to_string()]));
    let e = Username::parse("abc".to_string(), None).err().expect("rejected");
    assert_eq!(messages_of(&e).1, vec!["username must be at least 5 characters".to_string()]);
}

#[test]
fn taken_username_gets_one_message() {
    let u = Username::parse("alice".to_string(), None).ok().expect("accepted");
    let e = username_taken_check(u, true, None).err().expect("rejected");
    assert_eq!(messages_of(&e), ("username".to_string(), vec!["username is already taken".to_string()]));
}

#[test]
fn password_lists_every_broken_rule_in_order() {
    let e = Password::parse("abc".to_string(), None).err().expect("rejected");
    assert_eq!(
        messages_of(&e).1,
        vec![
            "password must be at least 8 characters".to_string(),
            "password must contain at least one uppercase and lowercase letter".to_string(),
            "password must contain at least one special character".to_string(),
            "password must contain at least one digit".to_string(),
        ]
    );
    let e = Password::parse(String::new(), None).err().expect("rejected");
    assert_eq!(messages_of(&e).1, vec!["password cannot be empty".to_string()]);
    assert!(Password::parse(format!("Aa1!{}", "x".repeat(60)), None).is_ok());
    assert!(Password::parse(format!("Aa1!{}", "x".repeat(61)), None).is_err());
}

#[test]
fn confirmation_message_names_the_field() {
    let p = Password::new_unchecked("Hello@Wor1d".to_string());
    let e = p.parse_confirm("other".to_string(), None).err().expect("rejected");
    assert_eq!(
        messages_of(&e),
        ("password_confirm".to_string(), vec!["password confirm does not match".to_string()])
    );
}

#[test]
fn validator_counts_classes() {
    let text = "Ab1!cD_ 9";
    let v = text.as_string_validator();
    assert_eq!(v.count_graphemes(), 9);
    assert_eq!(v.count_ascii_uppercase(), 2);
    assert_eq!(v.count_ascii_lowercase(), 2);
    assert_eq!(v.count_ascii_uppercase_and_lowercase(), 4);
    assert_eq!(v.count_ascii_digit(), 2);
    assert_eq!(v.count_special_chars(), 2);
    assert_eq!(v.count_ascii_alphanumeric(), 6);
    assert!(v.has_ascii_uppercase_and_lowercase());
    assert!(v.has_special_chars());
    assert!(!"".to_string().as_string_validator().has_ascii_alphanumeric());
    assert!("".to_string().as_string_validator().is_empty());
}

#[test]
fn entry_request_reports_both_fields() {
    let request = AddToBucketList { name: "".to_string(), description: "a".to_string() };
    let e = request.to_validated().err().expect("rejected");
    assert_eq!(e.0.len(), 2);
    assert_eq!(e.0[0].field_name(), "name");
    assert_eq!(e.0[1].messages(), &vec!["description must be at least 5 characters".to_string()]);
    let ok = AddToBucketList { name: "Paris".to_string(), description: "See the tower".to_string() };
    let v = ok.to_validated().ok().expect("accepted");
    assert_eq!(v.name.as_str(), "Paris");
    assert_eq!(v.description.as_str(), "See the tower");
}

#[test]
fn registration_compares_confirmation_with_accepted_password() {
    let form = UserRegisterForm {
        username: "alice".to_string(),
        password: "Hello@Wor1d".to_string(),
        password_confirm: "Hello@Wor1d".to_string(),
    };
    assert!(form.as_validated().is_ok());
    let bad = UserRegisterForm {
        username: "al".to_string(),
        password: "short".to_string(),
        password_confirm: "short".to_string(),
    };
    let e = bad.as_validated().err().expect("rejected");
    let fields: Vec<&str> = e.0.iter().map(|i| i.field_name()).collect();
    assert_eq!(fields, vec!["username", "password", "password_confirm"]);
}

#[test]
fn builder_is_ok_only_without_items() {
    let mut builder = ValidationErrorsBuilder::new();
    builder.add("name".to_string(), vec![]);
    assert!(builder.build_result().is_ok());
    let mut builder = ValidationErrorsBuilder::new();
    builder.add("name".to_string(), vec!["bad".to_string()]);
    let e = builder.build_result().err().expect("one item");
    assert_eq!(e.0.len(), 1);
}

#[test]
fn map_joins_messages_of_the_same_field() {
    let response = ValidationErrorResponse(vec![
        item("name", &["a"]),
        item("other", &["b"]),
        item("name", &["c", "d"]),
    ]);
    let map = response.as_map();
    assert_eq!(map.items().len(), 2);
    let name = map.get("name").expect("present");
    assert_eq!(name.messages(), &vec!["a".to_string(), "c".to_string(), "d".to_string()]);
    assert_eq!(map.items()[1].field_name(), "other");
    assert!(map.get("missing").is_none());
    assert_eq!(response.to_text(), "a;\nb;\nc, d;\n");
}

#[test]
fn merge_builder_keeps_last_form_of_a_name() {
    let first = Err(ValidationErrorResponse(vec![item("name", &["a"])]));
    let second = Err(ValidationErrorResponse(vec![item("name", &["b"])]));
    let merged = ValidationErrorsMergeBuilder::new()
        .merge("form".to_string(), first)
        .merge("clean".to_string(), Ok(()))
        .merge("form".to_string(), second)
        .build_result()
        .err()
        .expect("one form failed");
    assert_eq!(merged.0.len(), 1);
    assert_eq!(merged.0[0].0, "form");
    assert_eq!(merged.as_map().get("name").expect("present").messages(), &vec!["b".to_string()]);
    assert_eq!(merged.to_text(), "b;\n");
    assert!(ValidationErrorsMergeBuilder::new().build_result().is_ok());
}

#[test]
fn etag_matches_only_the_same_tag() {
    assert!(EtagCheck::not_modified(Some("abc"), Some("abc")));
    assert!(!EtagCheck::not_modified(Some("abc"), Some("abd")));
    assert!(!EtagCheck::not_modified(None, Some("abc")));
    assert_eq!(EtagStamp::header(None), ("X-Etag".to_string(), "not-set".to_string()));
    assert_eq!(EtagStamp::header(Some("v1")), ("ETag".to_string(), "v1".to_string()));
}
