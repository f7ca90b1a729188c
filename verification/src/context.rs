//! The session of one request.
//!
//! A session knows who is signed in and keeps two flags that say whether the
//! request signed someone in or out. Whoever answers the request reads the
//! flags once, at the end, to decide what becomes of the session token.
//!
//! The session changes in two ways only: recording a sign-in and recording a
//! sign-out. The flags are therefore never both set, a recorded sign-in always
//! comes with the account that signed in, and a recorded sign-out with none.

use crate::errors::RemoveAccountError;
use crate::errors::SignInError;
use crate::errors::SignUpError;
use crate::errors::UpdateAccountError;
use crate::identity::is_random_identity;
use crate::model::option_view;
use crate::model::result_view;
use crate::service::account_named;
use crate::service::sign_up_violation;
use crate::service::SharedContext;
use crate::store::AccountNames;
use crate::store::Authenticate;
use crate::store::CreateAccount;
use crate::store::RemoveAccount;
use crate::store::RemoveAccountView;
use crate::store::StoreFailure;
use crate::store::UpdateAccount;
use crate::store::UpdateAccountView;
use crate::user::PasswordChange;
use crate::user::User;
use crate::user::UserView;
use std::sync::Arc;
use vstd::prelude::*;

verus! {

/// Mathematical model of a session.
pub struct SessionState {
    /// The account that is signed in, if any.
    pub user: Option<UserView>,
    /// The request signed an account in, and nothing signed it out after.
    pub did_sign_in: bool,
    /// The request signed the account out, and nothing signed one in after.
    pub did_sign_out: bool,
}

impl SessionState {
    /// What holds of every session.
    pub open spec fn well_formed(self) -> bool {
        &&& !(self.did_sign_in && self.did_sign_out)
        &&& self.did_sign_in ==> self.user is Some
        &&& self.did_sign_out ==> self.user is None
    }

    /// The session at the start of a request made by `user`, or by nobody.
    pub open spec fn fresh(user: Option<UserView>) -> SessionState {
        SessionState { user, did_sign_in: false, did_sign_out: false }
    }

    /// The session after a sign-in of `user` was recorded.
    pub open spec fn signed_in(user: UserView) -> SessionState {
        SessionState { user: Some(user), did_sign_in: true, did_sign_out: false }
    }

    /// The session after a sign-out was recorded.
    pub open spec fn signed_out() -> SessionState {
        SessionState { user: None, did_sign_in: false, did_sign_out: true }
    }

    /// What a session in this state asks to be done with the session token.
    pub open spec fn token_update(self) -> TokenUpdate {
        if self.did_sign_in && self.user is Some {
            TokenUpdate::Mint(self.user->0.id)
        } else if self.did_sign_out {
            TokenUpdate::Clear
        } else {
            TokenUpdate::Keep
        }
    }
}

/// What is to become of the session token when the request has been answered.
#[derive(Debug, Clone, Copy, PartialEq, Eq, Structural)]
pub enum TokenUpdate {
    /// Leave the token as it is.
    Keep,
    /// Issue a token for this identity.
    Mint(u128),
    /// Take the token away.
    Clear,
}

/// The session of one request.
pub struct Context {
    shared: Arc<SharedContext>,
    user: Option<User>,
    did_sign_in: bool,
    did_sign_out: bool,
}

impl View for Context {
    type V = SessionState;

    closed spec fn view(&self) -> SessionState {
        SessionState {
            user: option_view(self.user),
            did_sign_in: self.did_sign_in,
            did_sign_out: self.did_sign_out,
        }
    }
}

impl Context {
    #[verifier::type_invariant]
    spec fn consistent(self) -> bool {
        self@.well_formed()
    }

    /// The account service that this session hashes passwords with.
    pub closed spec fn shared(&self) -> SharedContext {
        *self.shared
    }

    /// A fresh session for a request made by `user`, or by nobody.
    pub fn new(shared: Arc<SharedContext>, user: Option<User>) -> (context: Context)
        ensures
            context@ == SessionState::fresh(option_view(user)),
            context@.well_formed(),
            context.shared() == *shared,
    {
        Context { shared, user, did_sign_in: false, did_sign_out: false }
    }

    /// Whether the request signed an account in.
    pub fn did_sign_in(&self) -> (flag: bool)
        ensures
            flag == self@.did_sign_in,
            self@.well_formed(),
    {
        proof {
            use_type_invariant(self);
        }
        self.did_sign_in
    }

    /// Whether the request signed the account out.
    pub fn did_sign_out(&self) -> (flag: bool)
        ensures
            flag == self@.did_sign_out,
            self@.well_formed(),
    {
        proof {
            use_type_invariant(self);
        }
        self.did_sign_out
    }

    /// The account that is signed in, if any.
    pub fn user(&self) -> (user: &Option<User>)
        ensures
            option_view(*user) == self@.user,
            self@.well_formed(),
    {
        proof {
            use_type_invariant(self);
        }
        &self.user
    }

    /// Records that `user` signed in.
    fn record_did_sign_in(&mut self, user: User)
        ensures
            final(self)@ == SessionState::signed_in(user@),
            final(self).shared() == old(self).shared(),
    {
        proof {
            use_type_invariant(&*self);
        }
        self.did_sign_out = false;
        self.user = Some(user);
        self.did_sign_in = true;
    }

    /// Records that the account signed out.
    fn record_did_sign_out(&mut self)
        ensures
            final(self)@ == SessionState::signed_out(),
            final(self).shared() == old(self).shared(),
    {
        proof {
            use_type_invariant(&*self);
        }
        self.did_sign_in = false;
        self.user = None;
        self.did_sign_out = true;
    }

    /// First half of a sign-up. Anyone may sign up, signed in or not.
    pub fn sign_up(
        &self,
        username: &str,
        email: &str,
        password: &str,
    ) -> (outcome: Result<CreateAccount, SignUpError>)
        ensures
            match outcome {
                Ok(request) => {
                    &&& is_random_identity(request.id)
                    &&& result_view(outcome) == self.shared().sign_up_request(
                        request.id,
                        username@,
                        email@,
                        password@,
                    )
                },
                Err(error) => {
                    &&& sign_up_violation(username@, email@, password@) is Some
                    &&& error == SignUpError::ValidationFailed(
                        sign_up_violation(username@, email@, password@)->0,
                    )
                },
            },
    {
        self.shared.sign_up(username, email, password)
    }

    /// Second half of a sign-up: reads the store's reply to the request that
    /// was made for `id`. An account that was created is signed in; a failure
    /// leaves the session as it was.
    pub fn finish_sign_up(
        &mut self,
        id: u128,
        reply: Result<AccountNames, StoreFailure>,
    ) -> (outcome: Result<User, SignUpError>)
        ensures
            result_view(outcome) == match reply {
                Ok(names) => Ok::<UserView, SignUpError>(account_named(id, names)),
                Err(failure) => Err::<UserView, SignUpError>(SignUpError::of_failure(failure)),
            },
            final(self)@ == match outcome {
                Ok(user) => SessionState::signed_in(user@),
                Err(_) => old(self)@,
            },
            final(self)@.well_formed(),
            final(self).shared() == old(self).shared(),
    {
        proof {
            use_type_invariant(&*self);
        }
        match self.shared.finish_sign_up(id, reply) {
            Ok(user) => {
                self.record_did_sign_in(user.clone());
                Ok(user)
            },
            Err(error) => Err(error),
        }
    }

    /// First half of a sign-in. Anyone may sign in, signed in or not.
    pub fn sign_in(&self, username_or_email: &str, password: &str) -> (request: Authenticate)
        ensures
            request@ == self.shared().sign_in_request(username_or_email@, password@),
    {
        self.shared.sign_in(username_or_email, password)
    }

    /// Second half of a sign-in: reads the store's reply. An account that was
    /// found is signed in; a failure leaves the session as it was.
    pub fn finish_sign_in(
        &mut self,
        reply: Result<Option<User>, StoreFailure>,
    ) -> (outcome: Result<User, SignInError>)
        ensures
            outcome == match reply {
                Ok(Some(user)) => Ok::<User, SignInError>(user),
                Ok(None) => Err::<User, SignInError>(SignInError::InvalidCredentials),
                Err(_) => Err::<User, SignInError>(SignInError::Unknown),
            },
            final(self)@ == match outcome {
                Ok(user) => SessionState::signed_in(user@),
                Err(_) => old(self)@,
            },
            final(self)@.well_formed(),
            final(self).shared() == old(self).shared(),
    {
        proof {
            use_type_invariant(&*self);
        }
        match self.shared.finish_sign_in(reply) {
            Ok(user) => {
                self.record_did_sign_in(user.clone());
                Ok(user)
            },
            Err(error) => Err(error),
        }
    }

    /// Signs out, whatever the session held before.
    pub fn sign_out(&mut self)
        ensures
            final(self)@ == SessionState::signed_out(),
            final(self)@.well_formed(),
            final(self).shared() == old(self).shared(),
    {
        self.record_did_sign_out();
    }

    /// First half of removing the account that is signed in. Where nobody is
    /// signed in there is nothing to ask of the store.
    pub fn remove_account(&self, password: &str) -> (outcome: Result<
        RemoveAccount,
        RemoveAccountError,
    >)
        ensures
            result_view(outcome) == match self@.user {
                None => Err::<RemoveAccountView, RemoveAccountError>(
                    RemoveAccountError::NotSignedIn,
                ),
                Some(user) => Ok::<RemoveAccountView, RemoveAccountError>(
                    self.shared().remove_account_request(user.id, password@),
                ),
            },
    {
        match &self.user {
            None => Err(RemoveAccountError::NotSignedIn),
            Some(user) => Ok(self.shared.remove_account(user.id, password)),
        }
    }

    /// Second half of removing an account: the account is gone only if the
    /// store says so. The session stays as it is.
    pub fn finish_remove_account(
        &self,
        reply: Result<Option<bool>, StoreFailure>,
    ) -> (outcome: Result<(), RemoveAccountError>)
        ensures
            outcome == match reply {
                Ok(Some(true)) => Ok::<(), RemoveAccountError>(()),
                _ => Err::<(), RemoveAccountError>(RemoveAccountError::Failed),
            },
    {
        self.shared.finish_remove_account(reply)
    }

    /// First half of updating the account that is signed in. Where nobody is
    /// signed in there is nothing to ask of the store, whatever the fields
    /// hold.
    pub fn update_account(
        &self,
        new_email: Option<String>,
        new_username: Option<String>,
        password_change: Option<PasswordChange>,
    ) -> (outcome: Result<UpdateAccount, UpdateAccountError>)
        ensures
            result_view(outcome) == match self@.user {
                None => Err::<UpdateAccountView, UpdateAccountError>(
                    UpdateAccountError::NotSignedIn,
                ),
                Some(user) => self.shared().update_account_request(
                    user.id,
                    option_view(new_email),
                    option_view(new_username),
                    option_view(password_change),
                ),
            },
    {
        match &self.user {
            None => Err(UpdateAccountError::NotSignedIn),
            Some(user) => self.shared.update_account(
                user.id,
                new_email,
                new_username,
                password_change,
            ),
        }
    }

    /// Second half of updating an account: reads the store's reply, the
    /// account as it now stands or the reason it was not touched. The session
    /// stays as it is.
    pub fn finish_update_account(
        &self,
        reply: Result<User, StoreFailure>,
    ) -> (outcome: Result<User, UpdateAccountError>)
        ensures
            outcome == match reply {
                Ok(user) => Ok::<User, UpdateAccountError>(user),
                Err(failure) => Err::<User, UpdateAccountError>(
                    UpdateAccountError::of_failure(failure),
                ),
            },
    {
        self.shared.finish_update_account(reply)
    }

    /// What is to become of the session token: a token for the account that
    /// signed in, no token after a sign-out, and no change otherwise.
    pub fn token_update(&self) -> (update: TokenUpdate)
        ensures
            update == self@.token_update(),
            self@.well_formed(),
    {
        proof {
            use_type_invariant(self);
        }
        if self.did_sign_in {
            match &self.user {
                Some(user) => TokenUpdate::Mint(user.id),
                None => TokenUpdate::Keep,
            }
        } else if self.did_sign_out {
            TokenUpdate::Clear
        } else {
            TokenUpdate::Keep
        }
    }
}

} // verus!
