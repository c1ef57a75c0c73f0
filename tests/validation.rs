use datesapp::validate::{check_color, check_description, check_name};
use datesapp::{CreateRelationship, ValidationError};

fn request(name: &str, color: Option<&str>, description: Option<&str>) -> CreateRelationship {
    CreateRelationship {
        name: name.to_string(),
        color: color.map(|c| c.to_string()),
        description: description.map(|d| d.to_string()),
        user_creator: 1,
        proposed_users: vec![],
    }
}

#[test]
fn name_of_thirty_chars_accepted() {
    let r = request(&"a".repeat(30), None, None);
    assert_eq!(r.validate_name(), Ok(true));
    assert_eq!(check_name("x"), Ok(true));
}

#[test]
fn name_of_thirty_one_chars_rejected() {
    let r = request(&"a".repeat(31), None, None);
    assert_eq!(r.validate_name(), Err(ValidationError::NameTooLong));
}

#[test]
fn name_counts_characters_not_bytes() {
    // thirty two-byte characters
    let r = request(&"é".repeat(30), None, None);
    assert_eq!(r.validate_name(), Ok(true));
    assert_eq!(check_name(&"é".repeat(31)), Err(ValidationError::NameTooLong));
}

#[test]
fn empty_name_rejected() {
    let r = request("", None, None);
    assert_eq!(r.validate_name(), Err(ValidationError::NameEmpty));
    assert_eq!(check_name(""), Err(ValidationError::NameEmpty));
    assert_eq!(check_name("a"), Ok(true));
    let all_bad = request("", Some("bad"), Some(&"d".repeat(301)));
    assert_eq!(all_bad.validate_struct(), Err(ValidationError::NameEmpty));
    assert_eq!(ValidationError::NameEmpty.field(), "name");
}

#[test]
fn color_forms() {
    assert_eq!(check_color(&Some("fff".to_string())), Err(ValidationError::InvalidColor));
    assert_eq!(check_color(&Some("#ff".to_string())), Err(ValidationError::InvalidColor));
    assert_eq!(check_color(&Some("#fff".to_string())), Ok(true));
    assert_eq!(check_color(&Some("#ffffff".to_string())), Ok(true));
    assert_eq!(check_color(&Some("#fffff".to_string())), Err(ValidationError::InvalidColor));
    assert_eq!(check_color(&Some("".to_string())), Err(ValidationError::InvalidColor));
    assert_eq!(check_color(&None), Ok(true));
}

#[test]
fn color_rest_is_not_inspected() {
    assert_eq!(request("n", Some("#zzz"), None).validate_color(), Ok(true));
    assert_eq!(request("n", Some("ffffff#"), None).validate_color(), Err(ValidationError::InvalidColor));
}

#[test]
fn description_boundaries() {
    assert_eq!(check_description(&None), Ok(true));
    assert_eq!(check_description(&Some(String::new())), Ok(true));
    assert_eq!(check_description(&Some("d".repeat(300))), Ok(true));
    assert_eq!(check_description(&Some("d".repeat(301))), Err(ValidationError::DescriptionTooLong));
    let r = request("n", None, Some(&"d".repeat(301)));
    assert_eq!(r.validate_description(), Err(ValidationError::DescriptionTooLong));
}

#[test]
fn validate_struct_stops_at_first_failure() {
    let all_bad = request(&"a".repeat(31), Some("bad"), Some(&"d".repeat(301)));
    assert_eq!(all_bad.validate_struct(), Err(ValidationError::NameTooLong));
    let desc_and_color = request("ok", Some("bad"), Some(&"d".repeat(301)));
    assert_eq!(desc_and_color.validate_struct(), Err(ValidationError::DescriptionTooLong));
    let color_only = request("ok", Some("bad"), Some("fine"));
    assert_eq!(color_only.validate_struct(), Err(ValidationError::InvalidColor));
    let good = request("ok", Some("#a1b2c3"), Some("fine"));
    assert_eq!(good.validate_struct(), Ok(true));
}

#[test]
fn error_fields_and_messages() {
    assert_eq!(ValidationError::NameTooLong.field(), "name");
    assert_eq!(ValidationError::DescriptionTooLong.field(), "description");
    assert_eq!(ValidationError::InvalidColor.field(), "color");
}
