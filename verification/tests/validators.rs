use schema_wizard::validate::{field_name_validate, is_valid_field_name, validate_option};

fn yn() -> Vec<char> {
    vec!['Y', 'N']
}

fn ti() -> Vec<char> {
    vec!['T', 'I']
}

#[test]
fn field_name_rejects_empty() {
    assert!(!is_valid_field_name(""));
    assert!(field_name_validate("").is_err());
}

#[test]
fn field_name_rejects_bad_characters() {
    for bad in ["a b", "has-dash", "a.b", "name!", " title", "title ", "π", "naïve", "a/b", "\t"] {
        assert!(!is_valid_field_name(bad), "accepted {:?}", bad);
        assert!(field_name_validate(bad).is_err());
    }
}

#[test]
fn field_name_error_message_is_fixed() {
    let e = field_name_validate("not ok").unwrap_err();
    assert_eq!(e, "Field name must match the pattern [_a-zA-Z0-9]+");
}

#[test]
fn field_name_accepts_word_characters() {
    for good in ["title", "_x1", "ABC_09", "a", "_", "0", "snake_case_name"] {
        assert!(is_valid_field_name(good), "rejected {:?}", good);
        assert!(field_name_validate(good).is_ok());
    }
}

#[test]
fn option_accepts_either_case_and_normalizes_to_uppercase() {
    assert_eq!(validate_option("y", &yn()), Some('Y'));
    assert_eq!(validate_option("Y", &yn()), Some('Y'));
    assert_eq!(validate_option("n", &yn()), Some('N'));
    assert_eq!(validate_option("N", &yn()), Some('N'));
    assert_eq!(validate_option("t", &ti()), Some('T'));
    assert_eq!(validate_option("I", &ti()), Some('I'));
}

#[test]
fn option_rejects_codes_outside_the_set() {
    assert_eq!(validate_option("x", &yn()), None);
    assert_eq!(validate_option("T", &yn()), None);
    assert_eq!(validate_option("y", &ti()), None);
    assert_eq!(validate_option("é", &yn()), None);
}

#[test]
fn option_rejects_everything_but_a_single_character() {
    assert_eq!(validate_option("", &yn()), None);
    assert_eq!(validate_option("yy", &yn()), None);
    assert_eq!(validate_option("yes", &yn()), None);
    assert_eq!(validate_option(" y", &yn()), None);
}
