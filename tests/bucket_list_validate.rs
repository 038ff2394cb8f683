use bucket_list_app::bucket_list::validate::description::Description as DescriptionFromModule;
use bucket_list_app::bucket_list::validate::{Description, Name};

#[test]
fn test_parse_name() {
    let name = Name::parse("Hello".to_string(), None);
    assert!(name.is_ok());
}

#[test]
fn test_parse_name_error_empty_name() {
    let name = Name::parse("".to_string(), None);
    assert!(name.is_err());
}

#[test]
fn test_parse_name_error_name_length_too_short() {
    let name = Name::parse("a".to_string(), None);
    assert!(name.is_err());
}

#[test]
fn test_parse_name_error_name_length_too_long() {
    let name = Name::parse("a".repeat(21), None);
    assert!(name.is_err());
}

#[test]
fn validate_test_parse_description() {
    let description = Description::parse("Hello".to_string(), None);
    assert!(description.is_ok());
}

#[test]
fn validate_test_parse_description_error_empty_description() {
    let description = Description::parse("".to_string(), None);
    assert!(description.is_err());
}

#[test]
fn validate_test_parse_description_error_description_length_too_short() {
    let description = Description::parse("a".to_string(), None);
    assert!(description.is_err());
}

#[test]
fn validate_test_parse_description_error_description_length_too_long() {
    let description = Description::parse("a".repeat(101), None);
    assert!(description.is_err());
}

#[test]
fn description_test_parse_description() {
    let description = DescriptionFromModule::parse("Hello".to_string(), None);
    assert!(description.is_ok());
}

#[test]
fn description_test_parse_description_error_empty_description() {
    let description = DescriptionFromModule::parse("".to_string(), None);
    assert!(description.is_err());
}

#[test]
fn description_test_parse_description_error_description_length_too_short() {
    let description = DescriptionFromModule::parse("a".to_string(), None);
    assert!(description.is_err());
}

#[test]
fn description_test_parse_description_error_description_length_too_long() {
    let description = DescriptionFromModule::parse("a".repeat(101), None);
    assert!(description.is_err());
}
