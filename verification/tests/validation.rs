use account_core::validation::UserValidationError;
use account_core::validation::PASSWORD_LENGTH_LIMIT;
use account_core::validation::USERNAME_LENGTH_LIMIT;

#[test]
fn limits_are_six() {
    assert_eq!(USERNAME_LENGTH_LIMIT, 6);
    assert_eq!(PASSWORD_LENGTH_LIMIT, 6);
}

#[test]
fn username_shorter_than_six_is_too_short() {
    assert_eq!(
        UserValidationError::validate_username(""),
        Err(UserValidationError::UsernameTooShort)
    );
    assert_eq!(
        UserValidationError::validate_username("a"),
        Err(UserValidationError::UsernameTooShort)
    );
    assert_eq!(
        UserValidationError::validate_username("abcde"),
        Err(UserValidationError::UsernameTooShort)
    );
}

#[test]
fn username_of_six_or_more_passes() {
    assert_eq!(UserValidationError::validate_username("abcdef"), Ok(()));
    assert_eq!(UserValidationError::validate_username("abcdefghijkl"), Ok(()));
}

#[test]
fn username_length_counts_characters() {
    assert_eq!(
        UserValidationError::validate_username("ééé"),
        Err(UserValidationError::UsernameTooShort)
    );
    assert_eq!(UserValidationError::validate_username("éééééé"), Ok(()));
}

#[test]
fn email_needs_an_at() {
    assert_eq!(
        UserValidationError::validate_email("bad"),
        Err(UserValidationError::InvalidEmail)
    );
    assert_eq!(UserValidationError::validate_email(""), Err(UserValidationError::InvalidEmail));
    assert_eq!(UserValidationError::validate_email("a@b.c"), Ok(()));
    assert_eq!(UserValidationError::validate_email("@"), Ok(()));
    assert_eq!(UserValidationError::validate_email("name@"), Ok(()));
}

#[test]
fn password_shorter_than_six_is_too_short() {
    assert_eq!(
        UserValidationError::validate_password("x"),
        Err(UserValidationError::PasswordTooShort)
    );
    assert_eq!(
        UserValidationError::validate_password("12345"),
        Err(UserValidationError::PasswordTooShort)
    );
    assert_eq!(UserValidationError::validate_password("123456"), Ok(()));
}

#[test]
fn violation_messages() {
    assert_eq!(
        UserValidationError::UsernameTooShort.message(),
        "Username must be at least 6 characters long"
    );
    assert_eq!(
        UserValidationError::PasswordTooShort.message(),
        "Password must be at least 6 characters long"
    );
    assert_eq!(UserValidationError::InvalidEmail.message(), "Invalid email address");
}

#[test]
fn violation_messages_name_the_limits() {
    assert_eq!(
        UserValidationError::UsernameTooShort.message(),
        format!("Username must be at least {} characters long", USERNAME_LENGTH_LIMIT)
    );
    assert_eq!(
        UserValidationError::PasswordTooShort.message(),
        format!("Password must be at least {} characters long", PASSWORD_LENGTH_LIMIT)
    );
}
