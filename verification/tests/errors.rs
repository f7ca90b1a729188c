use account_core::errors::RemoveAccountError;
use account_core::errors::SignInError;
use account_core::errors::SignUpError;
use account_core::errors::UpdateAccountError;
use account_core::store::StoreFailure;
use account_core::validation::UserValidationError;

const DUPLICATE_USERNAME: &str = "Error { kind: Db, cause: Some(DbError { severity: \"ERROR\", \
    code: SqlState(E23505), message: \"duplicate key value violates unique constraint \
    \\\"users_username_key\\\"\", detail: Some(\"Key (username)=(someone) already exists.\"), \
    constraint: Some(\"users_username_key\") }) }";

const DUPLICATE_EMAIL: &str = "Error { kind: Db, cause: Some(DbError { severity: \"ERROR\", \
    code: SqlState(E23505), message: \"duplicate key value violates unique constraint \
    \\\"users_email_key\\\"\", detail: Some(\"Key (email)=(a@b.c) already exists.\"), \
    constraint: Some(\"users_email_key\") }) }";

const NO_ROW: &str = "Error { kind: RowCount, cause: None }";

const CLOSED: &str = "Error { kind: Closed, cause: None }";

fn client_error(option: &str) -> tokio_postgres::Error {
    match format!("{}=1", option).parse::<tokio_postgres::Config>() {
        Ok(_) => panic!("the option was accepted"),
        Err(error) => error,
    }
}

#[test]
fn sign_up_classifies_duplicate_username() {
    assert_eq!(SignUpError::classify(DUPLICATE_USERNAME), SignUpError::DuplicateUsername);
}

#[test]
fn sign_up_classifies_duplicate_email() {
    assert_eq!(SignUpError::classify(DUPLICATE_EMAIL), SignUpError::DuplicateEmail);
}

#[test]
fn sign_up_prefers_duplicate_username() {
    let both = format!("{} {}", DUPLICATE_EMAIL, DUPLICATE_USERNAME);
    assert_eq!(SignUpError::classify(&both), SignUpError::DuplicateUsername);
    let both = format!("{} {}", DUPLICATE_USERNAME, DUPLICATE_EMAIL);
    assert_eq!(SignUpError::classify(&both), SignUpError::DuplicateUsername);
}

#[test]
fn sign_up_classifies_the_rest_as_unknown() {
    assert_eq!(SignUpError::classify(NO_ROW), SignUpError::Unknown);
    assert_eq!(SignUpError::classify(CLOSED), SignUpError::Unknown);
    assert_eq!(SignUpError::classify(""), SignUpError::Unknown);
    assert_eq!(SignUpError::classify("users_username_ke"), SignUpError::Unknown);
}

#[test]
fn sign_up_from_failure() {
    assert_eq!(SignUpError::from_failure(&StoreFailure::Unavailable), SignUpError::Unknown);
    assert_eq!(
        SignUpError::from_failure(&StoreFailure::Client(String::from(DUPLICATE_USERNAME))),
        SignUpError::DuplicateUsername
    );
    assert_eq!(
        SignUpError::from_failure(&StoreFailure::Client(String::from(DUPLICATE_EMAIL))),
        SignUpError::DuplicateEmail
    );
    assert_eq!(
        SignUpError::from_failure(&StoreFailure::Client(String::from(CLOSED))),
        SignUpError::Unknown
    );
}

#[test]
fn sign_up_from_validation() {
    assert_eq!(
        SignUpError::from(UserValidationError::InvalidEmail),
        SignUpError::ValidationFailed(UserValidationError::InvalidEmail)
    );
}

#[test]
fn sign_up_from_client_error() {
    assert_eq!(SignUpError::from(client_error("users_username_key")), SignUpError::DuplicateUsername);
    assert_eq!(SignUpError::from(client_error("users_email_key")), SignUpError::DuplicateEmail);
    assert_eq!(SignUpError::from(client_error("RowCount")), SignUpError::Unknown);
    assert_eq!(SignUpError::from(client_error("something")), SignUpError::Unknown);
}

#[test]
fn sign_up_messages() {
    assert_eq!(SignUpError::Unknown.message(), "An unknown error occured");
    assert_eq!(
        SignUpError::DuplicateEmail.message(),
        "A user is already registered with this email address"
    );
    assert_eq!(SignUpError::DuplicateUsername.message(), "This username is taken");
    assert_eq!(
        SignUpError::ValidationFailed(UserValidationError::UsernameTooShort).message(),
        "Username must be at least 6 characters long"
    );
    assert_eq!(
        SignUpError::ValidationFailed(UserValidationError::InvalidEmail).message(),
        "Invalid email address"
    );
}

#[test]
fn sign_in_from_failure_is_unknown() {
    assert_eq!(SignInError::from_failure(&StoreFailure::Unavailable), SignInError::Unknown);
    assert_eq!(
        SignInError::from_failure(&StoreFailure::Client(String::from(NO_ROW))),
        SignInError::Unknown
    );
    assert_eq!(SignInError::from(client_error("users_username_key")), SignInError::Unknown);
}

#[test]
fn sign_in_messages() {
    assert_eq!(SignInError::Unknown.message(), "An unknown error occured");
    assert_eq!(SignInError::InvalidCredentials.message(), "Invalid credentials");
}

#[test]
fn remove_account_from_failure_is_failed() {
    assert_eq!(
        RemoveAccountError::from_failure(&StoreFailure::Unavailable),
        RemoveAccountError::Failed
    );
    assert_eq!(
        RemoveAccountError::from_failure(&StoreFailure::Client(String::from(CLOSED))),
        RemoveAccountError::Failed
    );
    assert_eq!(RemoveAccountError::from(client_error("RowCount")), RemoveAccountError::Failed);
}

#[test]
fn remove_account_messages() {
    assert_eq!(RemoveAccountError::Failed.message(), "Account removal failed");
    assert_eq!(
        RemoveAccountError::NotSignedIn.message(),
        "You must be signed in to remove your account"
    );
}

#[test]
fn update_classifies_each_outcome() {
    assert_eq!(
        UpdateAccountError::classify(DUPLICATE_USERNAME),
        UpdateAccountError::DuplicateUsername
    );
    assert_eq!(UpdateAccountError::classify(DUPLICATE_EMAIL), UpdateAccountError::DuplicateEmail);
    assert_eq!(UpdateAccountError::classify(NO_ROW), UpdateAccountError::WrongCurrentPassword);
    assert_eq!(UpdateAccountError::classify(CLOSED), UpdateAccountError::Failed);
    assert_eq!(UpdateAccountError::classify(""), UpdateAccountError::Failed);
}

#[test]
fn update_classifies_in_order() {
    let all = format!("{} {} {}", NO_ROW, DUPLICATE_EMAIL, DUPLICATE_USERNAME);
    assert_eq!(UpdateAccountError::classify(&all), UpdateAccountError::DuplicateUsername);
    let two = format!("{} {}", NO_ROW, DUPLICATE_EMAIL);
    assert_eq!(UpdateAccountError::classify(&two), UpdateAccountError::DuplicateEmail);
}

#[test]
fn update_from_failure() {
    assert_eq!(
        UpdateAccountError::from_failure(&StoreFailure::Unavailable),
        UpdateAccountError::Failed
    );
    assert_eq!(
        UpdateAccountError::from_failure(&StoreFailure::Client(String::from(NO_ROW))),
        UpdateAccountError::WrongCurrentPassword
    );
    assert_eq!(
        UpdateAccountError::from_failure(&StoreFailure::Client(String::from(DUPLICATE_EMAIL))),
        UpdateAccountError::DuplicateEmail
    );
}

#[test]
fn update_from_validation() {
    assert_eq!(
        UpdateAccountError::from(UserValidationError::PasswordTooShort),
        UpdateAccountError::ValidationFailed(UserValidationError::PasswordTooShort)
    );
}

#[test]
fn update_from_client_error() {
    assert_eq!(
        UpdateAccountError::from(client_error("users_username_key")),
        UpdateAccountError::DuplicateUsername
    );
    assert_eq!(
        UpdateAccountError::from(client_error("users_email_key")),
        UpdateAccountError::DuplicateEmail
    );
    assert_eq!(
        UpdateAccountError::from(client_error("RowCount")),
        UpdateAccountError::WrongCurrentPassword
    );
    assert_eq!(UpdateAccountError::from(client_error("something")), UpdateAccountError::Failed);
}

#[test]
fn update_messages() {
    assert_eq!(UpdateAccountError::Failed.message(), "Account update failed");
    assert_eq!(
        UpdateAccountError::NotSignedIn.message(),
        "You must be signed in to update your account"
    );
    assert_eq!(
        UpdateAccountError::DuplicateEmail.message(),
        "An account is already using this email address"
    );
    assert_eq!(UpdateAccountError::DuplicateUsername.message(), "This username is taken");
    assert_eq!(
        UpdateAccountError::WrongCurrentPassword.message(),
        "The current password provided is incorrect"
    );
    assert_eq!(
        UpdateAccountError::ValidationFailed(UserValidationError::PasswordTooShort).message(),
        "Password must be at least 6 characters long"
    );
}

#[test]
fn store_failure_keeps_the_description() {
    let error = client_error("users_username_key");
    let expected = format!("{:?}", error);
    match StoreFailure::from(error) {
        StoreFailure::Client(description) => {
            assert_eq!(description, expected);
            assert!(description.contains("users_username_key"));
            assert!(description.contains("ConfigParse"));
        }
        StoreFailure::Unavailable => panic!("a client error is no unavailable store"),
    }
}

#[test]
fn store_failure_clone_keeps_the_description() {
    let failure = StoreFailure::Client(String::from(NO_ROW));
    match failure.clone() {
        StoreFailure::Client(description) => assert_eq!(description, NO_ROW),
        StoreFailure::Unavailable => panic!("the copy lost the description"),
    }
    match StoreFailure::Unavailable.clone() {
        StoreFailure::Unavailable => {}
        StoreFailure::Client(_) => panic!("the copy gained a description"),
    }
}
