//! Laws that relate the operations to one another.
//!
//! Each law is stated over the models that the operations' contracts use, so
//! that it holds of every call that meets those contracts.

use crate::context::SessionState;
use crate::context::TokenUpdate;
use crate::errors::email_constraint;
use crate::errors::row_count_mark;
use crate::errors::username_constraint;
use crate::errors::SignUpError;
use crate::errors::UpdateAccountError;
use crate::hasher::password_digest;
use crate::service::sign_up_violation;
use crate::service::update_violation;
use crate::service::SharedContext;
use crate::store::CreateAccountView;
use crate::store::StoreFailure;
use crate::store::UpdateAccountView;
use crate::text::has_substring;
use crate::user::PasswordChangeView;
use crate::user::UserView;
use crate::validation::email_acceptable;
use crate::validation::password_acceptable;
use crate::validation::username_acceptable;
use crate::validation::UserValidationError;
use crate::validation::USERNAME_LENGTH_LIMIT;
use vstd::prelude::*;

verus! {

/// A sign-up whose username is too short fails for that reason, whatever the
/// email address and the password are like, and asks nothing of the store.
pub proof fn lemma_short_username_reported_first(
    shared: SharedContext,
    id: u128,
    username: Seq<char>,
    email: Seq<char>,
    password: Seq<char>,
)
    requires
        username.len() < USERNAME_LENGTH_LIMIT,
    ensures
        sign_up_violation(username, email, password) == Some(UserValidationError::UsernameTooShort),
        shared.sign_up_request(id, username, email, password) == Err::<CreateAccountView, SignUpError>(
            SignUpError::ValidationFailed(UserValidationError::UsernameTooShort),
        ),
{
}

/// A sign-up checks username, email address and password in that order and
/// reports the first rule broken: a rule is reported exactly when it is broken
/// and every rule before it is kept.
pub proof fn lemma_sign_up_reports_first_violation(
    username: Seq<char>,
    email: Seq<char>,
    password: Seq<char>,
)
    ensures
        sign_up_violation(username, email, password) == Some(UserValidationError::UsernameTooShort)
            <==> !username_acceptable(username),
        sign_up_violation(username, email, password) == Some(UserValidationError::InvalidEmail)
            <==> username_acceptable(username) && !email_acceptable(email),
        sign_up_violation(username, email, password) == Some(UserValidationError::PasswordTooShort)
            <==> username_acceptable(username) && email_acceptable(email) && !password_acceptable(
            password,
        ),
        sign_up_violation(username, email, password) is None <==> username_acceptable(username)
            && email_acceptable(email) && password_acceptable(password),
{
}

/// An email address without an `@` is never accepted: a sign-up whose
/// username passes fails on it, and so does an update whose new password, if
/// there is one, passes.
pub proof fn lemma_email_without_at_rejected(
    username: Seq<char>,
    email: Seq<char>,
    password: Seq<char>,
    new_username: Option<Seq<char>>,
    password_change: Option<PasswordChangeView>,
)
    requires
        !email.contains('@'),
    ensures
        !email_acceptable(email),
        username_acceptable(username) ==> sign_up_violation(username, email, password) == Some(
            UserValidationError::InvalidEmail,
        ),
        sign_up_violation(username, email, password) is Some,
        (password_change is Some ==> password_acceptable(password_change->0.new))
            ==> update_violation(Some(email), new_username, password_change) == Some(
            UserValidationError::InvalidEmail,
        ),
        update_violation(Some(email), new_username, password_change) is Some,
{
}

/// A store failure that names the username constraint is a duplicate
/// username, whether or not it names the email constraint too.
pub proof fn lemma_duplicate_username_takes_precedence(description: Seq<char>)
    requires
        has_substring(description, username_constraint()),
    ensures
        SignUpError::classified(description) == SignUpError::DuplicateUsername,
        UpdateAccountError::classified(description) == UpdateAccountError::DuplicateUsername,
{
}

/// A store failure that names the email constraint and not the username
/// constraint is a duplicate email address.
pub proof fn lemma_duplicate_email_when_username_free(description: Seq<char>)
    requires
        !has_substring(description, username_constraint()),
        has_substring(description, email_constraint()),
    ensures
        SignUpError::classified(description) == SignUpError::DuplicateEmail,
        UpdateAccountError::classified(description) == UpdateAccountError::DuplicateEmail,
{
}

/// An update that matched no row, and clashed with no other account, was
/// refused because the current password was wrong.
pub proof fn lemma_no_row_means_wrong_current_password(failure: StoreFailure)
    requires
        failure matches StoreFailure::Client(description) && {
            &&& !has_substring(description@, username_constraint())
            &&& !has_substring(description@, email_constraint())
            &&& has_substring(description@, row_count_mark())
        },
    ensures
        UpdateAccountError::of_failure(failure) == UpdateAccountError::WrongCurrentPassword,
{
}

/// An update with a password change hands the store the digest of the
/// current password as given, so that the store can refuse a wrong one, and
/// an update without one hands it no digest at all.
pub proof fn lemma_update_carries_current_password(
    shared: SharedContext,
    id: u128,
    new_email: Option<Seq<char>>,
    new_username: Option<Seq<char>>,
    password_change: Option<PasswordChangeView>,
)
    requires
        update_violation(new_email, new_username, password_change) is None,
    ensures
        shared.update_account_request(id, new_email, new_username, password_change) is Ok,
        shared.update_account_request(
            id,
            new_email,
            new_username,
            password_change,
        )->Ok_0.current_password == match password_change {
            Some(change) => Some(password_digest(change.current, shared.salt())),
            None => None,
        },
{
}

/// An update that names no field passes every check and asks the store to
/// change nothing and to compare nothing.
pub proof fn lemma_empty_update_changes_nothing(shared: SharedContext, id: u128)
    ensures
        shared.update_account_request(id, None, None, None) == Ok::<
            UpdateAccountView,
            UpdateAccountError,
        >(
            UpdateAccountView {
                id,
                current_password: None,
                new_email: None,
                new_username: None,
                new_password: None,
            },
        ),
{
}

/// The session that a sign-in leaves holds the account that signed in, says
/// that a sign-in occurred and says that no sign-out did. It asks for a token
/// for that account.
pub proof fn lemma_signed_in_session(user: UserView)
    ensures
        SessionState::signed_in(user).user == Some(user),
        SessionState::signed_in(user).did_sign_in,
        !SessionState::signed_in(user).did_sign_out,
        SessionState::signed_in(user).well_formed(),
        SessionState::signed_in(user).token_update() == TokenUpdate::Mint(user.id),
{
}

/// The session that a sign-out leaves holds no account, says that a sign-out
/// occurred and says that no sign-in did. It asks for the token to be taken
/// away.
pub proof fn lemma_signed_out_session()
    ensures
        SessionState::signed_out().user is None,
        SessionState::signed_out().did_sign_out,
        !SessionState::signed_out().did_sign_in,
        SessionState::signed_out().well_formed(),
        SessionState::signed_out().token_update() == TokenUpdate::Clear,
{
}

/// In no session are both flags set, and a token is asked for only on behalf
/// of the account that is signed in.
pub proof fn lemma_flags_exclude_each_other(state: SessionState)
    requires
        state.well_formed(),
    ensures
        !(state.did_sign_in && state.did_sign_out),
        state.did_sign_in ==> state.token_update() == TokenUpdate::Mint(
            state.user->0.id,
        ),
        state.did_sign_out ==> state.token_update() == TokenUpdate::Clear,
        !state.did_sign_in && !state.did_sign_out ==> state.token_update()
            == TokenUpdate::Keep,
{
}

} // verus!
