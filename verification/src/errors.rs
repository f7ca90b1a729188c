//! The errors of the account operations, and the classifier that sorts a
//! store failure into them.
//!
//! The store enforces that usernames and email addresses are unique and
//! reports a clash by the name of the constraint that was violated. The
//! classifier searches the description of a failure for those names, the
//! username's first, and, for updates, for the mark of a statement that
//! matched no row.

use crate::store::describe;
use crate::store::StoreFailure;
use crate::text::contains_text;
use crate::text::has_substring;
use crate::validation::UserValidationError;
use vstd::prelude::*;
use vstd::std_specs::convert::FromSpecImpl;

verus! {

/// Name of the constraint that keeps usernames unique.
pub open spec fn username_constraint() -> Seq<char> {
    "users_username_key"@
}

/// Name of the constraint that keeps email addresses unique.
pub open spec fn email_constraint() -> Seq<char> {
    "users_email_key"@
}

/// How the store client names the failure of a statement that was to return
/// one row and returned another number of them.
pub open spec fn row_count_mark() -> Seq<char> {
    "RowCount"@
}

/// Why a sign-up failed.
#[derive(Debug, Clone, Copy, PartialEq, Eq, Structural)]
pub enum SignUpError {
    Unknown,
    DuplicateEmail,
    DuplicateUsername,
    ValidationFailed(UserValidationError),
}

impl SignUpError {
    /// The error that a store failure with this description stands for.
    pub open spec fn classified(description: Seq<char>) -> SignUpError {
        if has_substring(description, username_constraint()) {
            SignUpError::DuplicateUsername
        } else if has_substring(description, email_constraint()) {
            SignUpError::DuplicateEmail
        } else {
            SignUpError::Unknown
        }
    }

    /// What this error reads as to the person who caused it.
    pub open spec fn message_text(self) -> Seq<char> {
        match self {
            SignUpError::Unknown => "An unknown error occured"@,
            SignUpError::DuplicateEmail => "A user is already registered with this email address"@,
            SignUpError::DuplicateUsername => "This username is taken"@,
            SignUpError::ValidationFailed(violation) => violation.message_text(),
        }
    }

    /// Sorts a store failure, given by its description, into an error.
    pub fn classify(description: &str) -> (error: SignUpError)
        ensures
            error == SignUpError::classified(description@),
    {
        if contains_text(description, "users_username_key") {
            SignUpError::DuplicateUsername
        } else if contains_text(description, "users_email_key") {
            SignUpError::DuplicateEmail
        } else {
            SignUpError::Unknown
        }
    }

    /// The error that a store failure stands for. A store that could not be
    /// reached is an unknown error; what the client reported is sorted by its
    /// description.
    pub open spec fn of_failure(failure: StoreFailure) -> SignUpError {
        match failure {
            StoreFailure::Unavailable => SignUpError::Unknown,
            StoreFailure::Client(description) => SignUpError::classified(description@),
        }
    }

    /// Sorts a store failure into an error.
    pub fn from_failure(failure: &StoreFailure) -> (error: SignUpError)
        ensures
            error == SignUpError::of_failure(*failure),
    {
        match failure {
            StoreFailure::Unavailable => SignUpError::Unknown,
            StoreFailure::Client(description) => SignUpError::classify(description.as_str()),
        }
    }

    /// The error in words.
    pub fn message(&self) -> (text: String)
        ensures
            text@ == self.message_text(),
    {
        match self {
            SignUpError::Unknown => "An unknown error occured".to_owned(),
            SignUpError::DuplicateEmail => {
                "A user is already registered with this email address".to_owned()
            },
            SignUpError::DuplicateUsername => "This username is taken".to_owned(),
            SignUpError::ValidationFailed(violation) => violation.message(),
        }
    }
}

impl From<UserValidationError> for SignUpError {
    fn from(violation: UserValidationError) -> (error: SignUpError) {
        SignUpError::ValidationFailed(violation)
    }
}

impl FromSpecImpl<UserValidationError> for SignUpError {
    open spec fn obeys_from_spec() -> bool {
        true
    }

    open spec fn from_spec(violation: UserValidationError) -> SignUpError {
        SignUpError::ValidationFailed(violation)
    }
}

impl From<tokio_postgres::Error> for SignUpError {
    /// Sorts what the store client reported by its description.
    fn from(client_error: tokio_postgres::Error) -> (error: SignUpError)
        ensures
            error !is ValidationFailed,
    {
        let description = describe(&client_error);
        SignUpError::classify(description.as_str())
    }
}

impl FromSpecImpl<tokio_postgres::Error> for SignUpError {
    open spec fn obeys_from_spec() -> bool {
        false
    }

    open spec fn from_spec(client_error: tokio_postgres::Error) -> SignUpError {
        arbitrary()
    }
}

/// Why a sign-in failed.
#[derive(Debug, Clone, Copy, PartialEq, Eq, Structural)]
pub enum SignInError {
    Unknown,
    InvalidCredentials,
}

impl SignInError {
    /// What this error reads as to the person who caused it.
    pub open spec fn message_text(self) -> Seq<char> {
        match self {
            SignInError::Unknown => "An unknown error occured"@,
            SignInError::InvalidCredentials => "Invalid credentials"@,
        }
    }

    /// Sorts a store failure into an error: whatever kept the store from
    /// answering is an unknown error.
    pub fn from_failure(_failure: &StoreFailure) -> (error: SignInError)
        ensures
            error == SignInError::Unknown,
    {
        SignInError::Unknown
    }

    /// The error in words.
    pub fn message(&self) -> (text: String)
        ensures
            text@ == self.message_text(),
    {
        match self {
            SignInError::Unknown => "An unknown error occured".to_owned(),
            SignInError::InvalidCredentials => "Invalid credentials".to_owned(),
        }
    }
}

impl From<tokio_postgres::Error> for SignInError {
    fn from(_client_error: tokio_postgres::Error) -> (error: SignInError) {
        SignInError::Unknown
    }
}

impl FromSpecImpl<tokio_postgres::Error> for SignInError {
    open spec fn obeys_from_spec() -> bool {
        true
    }

    open spec fn from_spec(client_error: tokio_postgres::Error) -> SignInError {
        SignInError::Unknown
    }
}

/// Why an account was not removed.
#[derive(Debug, Clone, Copy, PartialEq, Eq, Structural)]
pub enum RemoveAccountError {
    Failed,
    NotSignedIn,
}

impl RemoveAccountError {
    /// What this error reads as to the person who caused it.
    pub open spec fn message_text(self) -> Seq<char> {
        match self {
            RemoveAccountError::Failed => "Account removal failed"@,
            RemoveAccountError::NotSignedIn => "You must be signed in to remove your account"@,
        }
    }

    /// Sorts a store failure into an error: whatever kept the store from
    /// answering, the removal failed.
    pub fn from_failure(_failure: &StoreFailure) -> (error: RemoveAccountError)
        ensures
            error == RemoveAccountError::Failed,
    {
        RemoveAccountError::Failed
    }

    /// The error in words.
    pub fn message(&self) -> (text: String)
        ensures
            text@ == self.message_text(),
    {
        match self {
            RemoveAccountError::Failed => "Account removal failed".to_owned(),
            RemoveAccountError::NotSignedIn => {
                "You must be signed in to remove your account".to_owned()
            },
        }
    }
}

impl From<tokio_postgres::Error> for RemoveAccountError {
    fn from(_client_error: tokio_postgres::Error) -> (error: RemoveAccountError) {
        RemoveAccountError::Failed
    }
}

impl FromSpecImpl<tokio_postgres::Error> for RemoveAccountError {
    open spec fn obeys_from_spec() -> bool {
        true
    }

    open spec fn from_spec(client_error: tokio_postgres::Error) -> RemoveAccountError {
        RemoveAccountError::Failed
    }
}

/// Why an account was not updated.
#[derive(Debug, Clone, Copy, PartialEq, Eq, Structural)]
pub enum UpdateAccountError {
    Failed,
    NotSignedIn,
    DuplicateEmail,
    DuplicateUsername,
    WrongCurrentPassword,
    ValidationFailed(UserValidationError),
}

impl UpdateAccountError {
    /// The error that a store failure with this description stands for.
    pub open spec fn classified(description: Seq<char>) -> UpdateAccountError {
        if has_substring(description, username_constraint()) {
            UpdateAccountError::DuplicateUsername
        } else if has_substring(description, email_constraint()) {
            UpdateAccountError::DuplicateEmail
        } else if has_substring(description, row_count_mark()) {
            UpdateAccountError::WrongCurrentPassword
        } else {
            UpdateAccountError::Failed
        }
    }

    /// What this error reads as to the person who caused it.
    pub open spec fn message_text(self) -> Seq<char> {
        match self {
            UpdateAccountError::Failed => "Account update failed"@,
            UpdateAccountError::NotSignedIn => "You must be signed in to update your account"@,
            UpdateAccountError::DuplicateEmail => "An account is already using this email address"@,
            UpdateAccountError::DuplicateUsername => "This username is taken"@,
            UpdateAccountError::WrongCurrentPassword => "The current password provided is incorrect"@,
            UpdateAccountError::ValidationFailed(violation) => violation.message_text(),
        }
    }

    /// Sorts a store failure, given by its description, into an error.
    pub fn classify(description: &str) -> (error: UpdateAccountError)
        ensures
            error == UpdateAccountError::classified(description@),
    {
        if contains_text(description, "users_username_key") {
            UpdateAccountError::DuplicateUsername
        } else if contains_text(description, "users_email_key") {
            UpdateAccountError::DuplicateEmail
        } else if contains_text(description, "RowCount") {
            UpdateAccountError::WrongCurrentPassword
        } else {
            UpdateAccountError::Failed
        }
    }

    /// The error that a store failure stands for. A store that could not be
    /// reached makes the update fail; what the client reported is sorted by
    /// its description.
    pub open spec fn of_failure(failure: StoreFailure) -> UpdateAccountError {
        match failure {
            StoreFailure::Unavailable => UpdateAccountError::Failed,
            StoreFailure::Client(description) => UpdateAccountError::classified(description@),
        }
    }

    /// Sorts a store failure into an error.
    pub fn from_failure(failure: &StoreFailure) -> (error: UpdateAccountError)
        ensures
            error == UpdateAccountError::of_failure(*failure),
    {
        match failure {
            StoreFailure::Unavailable => UpdateAccountError::Failed,
            StoreFailure::Client(description) => UpdateAccountError::classify(description.as_str()),
        }
    }

    /// The error in words.
    pub fn message(&self) -> (text: String)
        ensures
            text@ == self.message_text(),
    {
        match self {
            UpdateAccountError::Failed => "Account update failed".to_owned(),
            UpdateAccountError::NotSignedIn => {
                "You must be signed in to update your account".to_owned()
            },
            UpdateAccountError::DuplicateEmail => {
                "An account is already using this email address".to_owned()
            },
            UpdateAccountError::DuplicateUsername => "This username is taken".to_owned(),
            UpdateAccountError::WrongCurrentPassword => {
                "The current password provided is incorrect".to_owned()
            },
            UpdateAccountError::ValidationFailed(violation) => violation.message(),
        }
    }
}

impl From<UserValidationError> for UpdateAccountError {
    fn from(violation: UserValidationError) -> (error: UpdateAccountError) {
        UpdateAccountError::ValidationFailed(violation)
    }
}

impl FromSpecImpl<UserValidationError> for UpdateAccountError {
    open spec fn obeys_from_spec() -> bool {
        true
    }

    open spec fn from_spec(violation: UserValidationError) -> UpdateAccountError {
        UpdateAccountError::ValidationFailed(violation)
    }
}

impl From<tokio_postgres::Error> for UpdateAccountError {
    /// Sorts what the store client reported by its description.
    fn from(client_error: tokio_postgres::Error) -> (error: UpdateAccountError)
        ensures
            error !is ValidationFailed,
            error !is NotSignedIn,
    {
        let description = describe(&client_error);
        UpdateAccountError::classify(description.as_str())
    }
}

impl FromSpecImpl<tokio_postgres::Error> for UpdateAccountError {
    open spec fn obeys_from_spec() -> bool {
        false
    }

    open spec fn from_spec(client_error: tokio_postgres::Error) -> UpdateAccountError {
        arbitrary()
    }
}

} // verus!
