//! The account service: what to ask of the store for each operation, and what
//! the store's answer means.
//!
//! Every operation has two halves. The first checks the input, hashes what is
//! secret and yields the request to put to the store, or fails before the
//! store is involved. The second takes the store's reply and turns it into the
//! operation's result.

use crate::errors::RemoveAccountError;
use crate::errors::SignInError;
use crate::errors::SignUpError;
use crate::errors::UpdateAccountError;
use crate::hasher::effective_salt;
use crate::hasher::hash_password;
use crate::hasher::password_digest;
use crate::hasher::resolve_salt;
use crate::identity::fresh_identity;
use crate::identity::is_random_identity;
use crate::model::option_view;
use crate::model::result_view;
use crate::store::AccountNames;
use crate::store::Authenticate;
use crate::store::AuthenticateView;
use crate::store::CreateAccount;
use crate::store::CreateAccountView;
use crate::store::RemoveAccount;
use crate::store::RemoveAccountView;
use crate::store::StoreFailure;
use crate::store::UpdateAccount;
use crate::store::UpdateAccountView;
use crate::user::PasswordChange;
use crate::user::PasswordChangeView;
use crate::user::User;
use crate::user::UserView;
use crate::validation::email_acceptable;
use crate::validation::password_acceptable;
use crate::validation::username_acceptable;
use crate::validation::UserValidationError;
use vstd::prelude::*;

verus! {

/// The first rule that the fields of a sign-up break, taken in the order
/// username, email address, password.
pub open spec fn sign_up_violation(
    username: Seq<char>,
    email: Seq<char>,
    password: Seq<char>,
) -> Option<UserValidationError> {
    if !username_acceptable(username) {
        Some(UserValidationError::UsernameTooShort)
    } else if !email_acceptable(email) {
        Some(UserValidationError::InvalidEmail)
    } else if !password_acceptable(password) {
        Some(UserValidationError::PasswordTooShort)
    } else {
        None
    }
}

/// The first rule that the fields of an update break, taken in the order new
/// password, new email address, new username. A field that is absent breaks
/// none, and the current password is not checked at all.
pub open spec fn update_violation(
    new_email: Option<Seq<char>>,
    new_username: Option<Seq<char>>,
    password_change: Option<PasswordChangeView>,
) -> Option<UserValidationError> {
    if password_change is Some && !password_acceptable(password_change->0.new) {
        Some(UserValidationError::PasswordTooShort)
    } else if new_email is Some && !email_acceptable(new_email->0) {
        Some(UserValidationError::InvalidEmail)
    } else if new_username is Some && !username_acceptable(new_username->0) {
        Some(UserValidationError::UsernameTooShort)
    } else {
        None
    }
}

/// The account that the store's answer describes, under the identity `id`.
pub open spec fn account_named(id: u128, names: AccountNames) -> UserView {
    UserView { id, email: names.email@, username: names.username@ }
}

/// What every request shares: the salt that passwords are hashed under.
pub struct SharedContext {
    salt: String,
}

impl SharedContext {
    /// The salt that passwords are hashed under.
    pub closed spec fn salt(&self) -> Seq<char> {
        self.salt@
    }

    /// The request that creates the account `id`, or the violation that
    /// forbids it.
    pub open spec fn sign_up_request(
        &self,
        id: u128,
        username: Seq<char>,
        email: Seq<char>,
        password: Seq<char>,
    ) -> Result<CreateAccountView, SignUpError> {
        match sign_up_violation(username, email, password) {
            Some(violation) => Err(SignUpError::ValidationFailed(violation)),
            None => Ok(
                CreateAccountView {
                    id,
                    username,
                    email,
                    password: password_digest(password, self.salt()),
                },
            ),
        }
    }

    /// The request that authenticates `username_or_email` by `password`.
    pub open spec fn sign_in_request(
        &self,
        username_or_email: Seq<char>,
        password: Seq<char>,
    ) -> AuthenticateView {
        AuthenticateView { username_or_email, password: password_digest(password, self.salt()) }
    }

    /// The request that removes the account `id`, authorised by `password`.
    pub open spec fn remove_account_request(
        &self,
        id: u128,
        password: Seq<char>,
    ) -> RemoveAccountView {
        RemoveAccountView { id, password: password_digest(password, self.salt()) }
    }

    /// The request that updates the account `id`, or the violation that
    /// forbids it. Both digests are present exactly when a password change is
    /// asked for.
    pub open spec fn update_account_request(
        &self,
        id: u128,
        new_email: Option<Seq<char>>,
        new_username: Option<Seq<char>>,
        password_change: Option<PasswordChangeView>,
    ) -> Result<UpdateAccountView, UpdateAccountError> {
        match update_violation(new_email, new_username, password_change) {
            Some(violation) => Err(UpdateAccountError::ValidationFailed(violation)),
            None => Ok(
                UpdateAccountView {
                    id,
                    current_password: match password_change {
                        Some(change) => Some(password_digest(change.current, self.salt())),
                        None => None,
                    },
                    new_email,
                    new_username,
                    new_password: match password_change {
                        Some(change) => Some(password_digest(change.new, self.salt())),
                        None => None,
                    },
                },
            ),
        }
    }

    /// The service under the configured salt, or under the fallback salt
    /// where none is configured.
    pub fn new(configured_salt: Option<String>) -> (shared: SharedContext)
        ensures
            shared.salt() == effective_salt(option_view(configured_salt)),
    {
        SharedContext { salt: resolve_salt(configured_salt) }
    }

    /// Hashes `password` under the service's salt.
    pub fn hash_password(&self, password: &str) -> (digest: Vec<u8>)
        ensures
            digest@ == password_digest(password@, self.salt()),
    {
        hash_password(password, self.salt.as_str())
    }

    /// Reads the reply to a lookup by identity. Any failure counts as an
    /// account that was not found.
    pub fn find_user(
        &self,
        id: u128,
        reply: Result<AccountNames, StoreFailure>,
    ) -> (found: Option<User>)
        ensures
            option_view(found) == match reply {
                Ok(names) => Some(account_named(id, names)),
                Err(_) => None,
            },
    {
        match reply {
            Ok(names) => Some(User { id, username: names.username, email: names.email }),
            Err(_) => None,
        }
    }

    /// Checks the fields of a sign-up: username, email address and password,
    /// in that order. The first rule broken is the one reported.
    pub fn check_sign_up(
        username: &str,
        email: &str,
        password: &str,
    ) -> (outcome: Result<(), UserValidationError>)
        ensures
            match outcome {
                Ok(_) => sign_up_violation(username@, email@, password@) is None,
                Err(violation) => sign_up_violation(username@, email@, password@) == Some(violation),
            },
    {
        match UserValidationError::validate_username(username) {
            Err(violation) => {
                return Err(violation);
            },
            Ok(_) => {},
        }
        match UserValidationError::validate_email(email) {
            Err(violation) => {
                return Err(violation);
            },
            Ok(_) => {},
        }
        UserValidationError::validate_password(password)
    }

    /// The request that creates the account `id`, whatever its fields are
    /// like.
    fn create_account(
        &self,
        id: u128,
        username: &str,
        email: &str,
        password: &str,
    ) -> (request: CreateAccount)
        ensures
            request@ == (CreateAccountView {
                id,
                username: username@,
                email: email@,
                password: password_digest(password@, self.salt()),
            }),
    {
        let password = self.hash_password(password);
        CreateAccount { id, username: username.to_owned(), email: email.to_owned(), password }
    }

    /// First half of a sign-up under the identity `id`: checks username,
    /// email address and password in that order and hashes the password.
    pub fn sign_up_as(
        &self,
        id: u128,
        username: &str,
        email: &str,
        password: &str,
    ) -> (outcome: Result<CreateAccount, SignUpError>)
        ensures
            result_view(outcome) == self.sign_up_request(id, username@, email@, password@),
    {
        match SharedContext::check_sign_up(username, email, password) {
            Err(violation) => Err(SignUpError::from(violation)),
            Ok(_) => Ok(self.create_account(id, username, email, password)),
        }
    }

    /// First half of a sign-up: checks the fields as `sign_up_as` does, and
    /// for fields that pass draws a new identity at random. No identity is
    /// drawn for fields that fail.
    pub fn sign_up(
        &self,
        username: &str,
        email: &str,
        password: &str,
    ) -> (outcome: Result<CreateAccount, SignUpError>)
        ensures
            match outcome {
                Ok(request) => {
                    &&& is_random_identity(request.id)
                    &&& result_view(outcome) == self.sign_up_request(
                        request.id,
                        username@,
                        email@,
                        password@,
                    )
                },
                Err(error) => {
                    &&& sign_up_violation(username@, email@, password@) is Some
                    &&& error == SignUpError::ValidationFailed(
                        sign_up_violation(username@, email@, password@)->0,
                    )
                },
            },
    {
        match SharedContext::check_sign_up(username, email, password) {
            Err(violation) => Err(SignUpError::from(violation)),
            Ok(_) => {
                let id: u128 = fresh_identity();
                Ok(self.create_account(id, username, email, password))
            },
        }
    }

    /// Second half of a sign-up: reads the store's reply to the request that
    /// was made for `id`.
    pub fn finish_sign_up(
        &self,
        id: u128,
        reply: Result<AccountNames, StoreFailure>,
    ) -> (outcome: Result<User, SignUpError>)
        ensures
            result_view(outcome) == match reply {
                Ok(names) => Ok::<UserView, SignUpError>(account_named(id, names)),
                Err(failure) => Err::<UserView, SignUpError>(SignUpError::of_failure(failure)),
            },
    {
        match reply {
            Ok(names) => Ok(User { id, username: names.username, email: names.email }),
            Err(failure) => Err(SignUpError::from_failure(&failure)),
        }
    }

    /// First half of a sign-in: hashes the password. The store looks the
    /// account up and compares the digests.
    pub fn sign_in(&self, username_or_email: &str, password: &str) -> (request: Authenticate)
        ensures
            request@ == self.sign_in_request(username_or_email@, password@),
    {
        let password = self.hash_password(password);
        Authenticate { username_or_email: username_or_email.to_owned(), password }
    }

    /// Second half of a sign-in: reads the store's reply. A reply without an
    /// account means that the credentials matched none.
    pub fn finish_sign_in(
        &self,
        reply: Result<Option<User>, StoreFailure>,
    ) -> (outcome: Result<User, SignInError>)
        ensures
            outcome == match reply {
                Ok(Some(user)) => Ok::<User, SignInError>(user),
                Ok(None) => Err::<User, SignInError>(SignInError::InvalidCredentials),
                Err(_) => Err::<User, SignInError>(SignInError::Unknown),
            },
    {
        match reply {
            Ok(Some(user)) => Ok(user),
            Ok(None) => Err(SignInError::InvalidCredentials),
            Err(failure) => Err(SignInError::from_failure(&failure)),
        }
    }

    /// First half of removing the account `id`: hashes the password that
    /// authorises the removal.
    pub fn remove_account(&self, id: u128, password: &str) -> (request: RemoveAccount)
        ensures
            request@ == self.remove_account_request(id, password@),
    {
        let password = self.hash_password(password);
        RemoveAccount { id, password }
    }

    /// Second half of removing an account: the account is gone only if the
    /// store says so.
    pub fn finish_remove_account(
        &self,
        reply: Result<Option<bool>, StoreFailure>,
    ) -> (outcome: Result<(), RemoveAccountError>)
        ensures
            outcome == match reply {
                Ok(Some(true)) => Ok::<(), RemoveAccountError>(()),
                _ => Err::<(), RemoveAccountError>(RemoveAccountError::Failed),
            },
    {
        match reply {
            Ok(Some(true)) => Ok(()),
            Ok(_) => Err(RemoveAccountError::Failed),
            Err(failure) => Err(RemoveAccountError::from_failure(&failure)),
        }
    }

    /// First half of updating the account `id`: checks the new password, the
    /// new email address and the new username, in that order and as far as
    /// they are present, and hashes both passwords of a password change.
    pub fn update_account(
        &self,
        id: u128,
        new_email: Option<String>,
        new_username: Option<String>,
        password_change: Option<PasswordChange>,
    ) -> (outcome: Result<UpdateAccount, UpdateAccountError>)
        ensures
            result_view(outcome) == self.update_account_request(
                id,
                option_view(new_email),
                option_view(new_username),
                option_view(password_change),
            ),
    {
        let (current_password, new_password) = match password_change {
            None => (None, None),
            Some(change) => {
                match UserValidationError::validate_password(change.new.as_str()) {
                    Err(violation) => {
                        return Err(UpdateAccountError::from(violation));
                    },
                    Ok(_) => {},
                }
                (
                    Some(self.hash_password(change.current.as_str())),
                    Some(self.hash_password(change.new.as_str())),
                )
            },
        };
        if let Some(email) = &new_email {
            match UserValidationError::validate_email(email.as_str()) {
                Err(violation) => {
                    return Err(UpdateAccountError::from(violation));
                },
                Ok(_) => {},
            }
        }
        if let Some(username) = &new_username {
            match UserValidationError::validate_username(username.as_str()) {
                Err(violation) => {
                    return Err(UpdateAccountError::from(violation));
                },
                Ok(_) => {},
            }
        }
        Ok(UpdateAccount { id, current_password, new_email, new_username, new_password })
    }

    /// Second half of updating an account: reads the store's reply, the
    /// account as it now stands or the reason it was not touched.
    pub fn finish_update_account(
        &self,
        reply: Result<User, StoreFailure>,
    ) -> (outcome: Result<User, UpdateAccountError>)
        ensures
            outcome == match reply {
                Ok(user) => Ok::<User, UpdateAccountError>(user),
                Err(failure) => Err::<User, UpdateAccountError>(
                    UpdateAccountError::of_failure(failure),
                ),
            },
    {
        match reply {
            Ok(user) => Ok(user),
            Err(failure) => Err(UpdateAccountError::from_failure(&failure)),
        }
    }
}

} // verus!
