//! Shape rules for the fields of an account.
//!
//! Each rule looks at one field alone and never at the store. Lengths are
//! counted in characters.

use crate::text::contains_char;
use vstd::prelude::*;
use vstd::string::StrSliceExecFns;

verus! {

/// Fewest characters a username may have.
pub const USERNAME_LENGTH_LIMIT: usize = 6;

/// Fewest characters a password may have.
pub const PASSWORD_LENGTH_LIMIT: usize = 6;

/// The rule that a field broke.
#[derive(Debug, Clone, Copy, PartialEq, Eq, Structural)]
pub enum UserValidationError {
    UsernameTooShort,
    PasswordTooShort,
    InvalidEmail,
}

/// A username is acceptable when it has at least `USERNAME_LENGTH_LIMIT` characters.
pub open spec fn username_acceptable(username: Seq<char>) -> bool {
    username.len() >= USERNAME_LENGTH_LIMIT
}

/// An email address is acceptable when it holds an `@`.
pub open spec fn email_acceptable(email: Seq<char>) -> bool {
    email.contains('@')
}

/// A password is acceptable when it has at least `PASSWORD_LENGTH_LIMIT` characters.
pub open spec fn password_acceptable(password: Seq<char>) -> bool {
    password.len() >= PASSWORD_LENGTH_LIMIT
}

impl UserValidationError {
    /// What this violation reads as to the person who caused it.
    pub open spec fn message_text(self) -> Seq<char> {
        match self {
            UserValidationError::UsernameTooShort => "Username must be at least 6 characters long"@,
            UserValidationError::PasswordTooShort => "Password must be at least 6 characters long"@,
            UserValidationError::InvalidEmail => "Invalid email address"@,
        }
    }

    /// Checks the shape of a username.
    pub fn validate_username(username: &str) -> (outcome: Result<(), UserValidationError>)
        ensures
            username_acceptable(username@) ==> outcome == Ok::<(), UserValidationError>(()),
            !username_acceptable(username@) ==> outcome == Err::<(), UserValidationError>(
                UserValidationError::UsernameTooShort,
            ),
    {
        if username.unicode_len() < USERNAME_LENGTH_LIMIT {
            return Err(UserValidationError::UsernameTooShort);
        }
        Ok(())
    }

    /// Checks the shape of an email address.
    pub fn validate_email(email: &str) -> (outcome: Result<(), UserValidationError>)
        ensures
            email_acceptable(email@) ==> outcome == Ok::<(), UserValidationError>(()),
            !email_acceptable(email@) ==> outcome == Err::<(), UserValidationError>(
                UserValidationError::InvalidEmail,
            ),
    {
        if !contains_char(email, '@') {
            return Err(UserValidationError::InvalidEmail);
        }
        Ok(())
    }

    /// Checks the shape of a password.
    pub fn validate_password(password: &str) -> (outcome: Result<(), UserValidationError>)
        ensures
            password_acceptable(password@) ==> outcome == Ok::<(), UserValidationError>(()),
            !password_acceptable(password@) ==> outcome == Err::<(), UserValidationError>(
                UserValidationError::PasswordTooShort,
            ),
    {
        if password.unicode_len() < PASSWORD_LENGTH_LIMIT {
            return Err(UserValidationError::PasswordTooShort);
        }
        Ok(())
    }

    /// The violation in words.
    pub fn message(&self) -> (text: String)
        ensures
            text@ == self.message_text(),
    {
        match self {
            UserValidationError::UsernameTooShort => {
                "Username must be at least 6 characters long".to_owned()
            },
            UserValidationError::PasswordTooShort => {
                "Password must be at least 6 characters long".to_owned()
            },
            UserValidationError::InvalidEmail => "Invalid email address".to_owned(),
        }
    }
}

} // verus!
