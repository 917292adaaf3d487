use postboard::validation::{
    validate_content_length, validate_email_length, validate_password_length,
    validate_title_length, validate_username_length,
};

#[test]
fn empty_username_is_rejected_as_empty() {
    let e = validate_username_length("").unwrap_err();
    assert_eq!(e.message, "username cannot be empty");
    assert_eq!(e.code, "username cannot be empty");
}

#[test]
fn one_char_username_is_rejected_as_empty() {
    let e = validate_username_length("a").unwrap_err();
    assert_eq!(e.message, "username cannot be empty");
}

#[test]
fn two_char_username_is_ok() {
    assert!(validate_username_length("ab").is_ok());
}

#[test]
fn twenty_char_username_is_ok() {
    assert!(validate_username_length("abcdefghijklmnopqrst").is_ok());
}

#[test]
fn twenty_one_char_username_is_too_long() {
    let e = validate_username_length("abcdefghijklmnopqrstu").unwrap_err();
    assert_eq!(e.message, "username too long");
}

#[test]
fn username_length_counts_bytes_not_chars() {
    // eleven two-byte characters: 11 chars but 22 bytes, over the cap of 20
    let s = "ééééééééééé";
    assert_eq!(s.chars().count(), 11);
    let e = validate_username_length(s).unwrap_err();
    assert_eq!(e.message, "username too long");
    // ten two-byte characters: exactly 20 bytes, allowed
    assert!(validate_username_length("éééééééééé").is_ok());
}

#[test]
fn email_bounds() {
    assert_eq!(validate_email_length("").unwrap_err().message, "email cannot be empty");
    assert_eq!(validate_email_length("x").unwrap_err().message, "email cannot be empty");
    assert!(validate_email_length("a@x.co").is_ok());
    assert!(validate_email_length("a2345678901234567890").is_ok());
    assert_eq!(
        validate_email_length("a23456789012345678901").unwrap_err().message,
        "email too long"
    );
}

#[test]
fn password_bounds() {
    assert_eq!(validate_password_length("").unwrap_err().message, "password cannot be empty");
    assert_eq!(validate_password_length("p").unwrap_err().message, "password cannot be empty");
    assert_eq!(validate_password_length("short12").unwrap_err().message, "password too short");
    assert!(validate_password_length("password").is_ok());
    assert!(validate_password_length(&"p".repeat(40)).is_ok());
    assert_eq!(
        validate_password_length(&"p".repeat(41)).unwrap_err().message,
        "password too long"
    );
}

#[test]
fn title_bounds() {
    assert_eq!(validate_title_length("t").unwrap_err().message, "title cannot be empty");
    assert!(validate_title_length("ti").is_ok());
    assert!(validate_title_length(&"t".repeat(20)).is_ok());
    assert_eq!(validate_title_length(&"t".repeat(21)).unwrap_err().message, "title too long");
}

#[test]
fn content_bounds() {
    assert_eq!(validate_content_length("").unwrap_err().message, "content cannot be empty");
    assert!(validate_content_length("hi").is_ok());
    assert!(validate_content_length(&"c".repeat(225)).is_ok());
    assert_eq!(
        validate_content_length(&"c".repeat(226)).unwrap_err().message,
        "content too long"
    );
}
