//! The account as the outside world sees it.

use crate::context::Context;
use vstd::prelude::*;

verus! {

/// What callers may learn of an account. The credential digest is not part of it.
#[derive(Debug)]
pub struct User {
    /// The account's identity: assigned once at creation, never changed.
    pub id: u128,
    pub email: String,
    pub username: String,
}

/// Mathematical model of a `User`.
pub struct UserView {
    pub id: u128,
    pub email: Seq<char>,
    pub username: Seq<char>,
}

impl View for User {
    type V = UserView;

    open spec fn view(&self) -> UserView {
        UserView { id: self.id, email: self.email@, username: self.username@ }
    }
}

impl Clone for User {
    fn clone(&self) -> (copy: User)
        ensures
            copy == *self,
    {
        User { id: self.id, email: self.email.clone(), username: self.username.clone() }
    }
}

impl User {
    /// The account's identity.
    pub fn id(&self) -> (id: u128)
        ensures
            id == self.id,
    {
        self.id
    }

    /// The account's username, which anyone may see.
    pub fn username(&self) -> (username: &str)
        ensures
            username@ == self.username@,
    {
        self.username.as_str()
    }

    /// The email address as shown in a session of `viewer`: an account's
    /// address is shown to that account alone.
    pub open spec fn email_shown_to(self, viewer: Option<UserView>) -> Option<Seq<char>> {
        match viewer {
            Some(v) if v.id == self.id => Some(self.email@),
            _ => None,
        }
    }

    /// The account's email address, if this account is the one signed in.
    pub fn email<'a>(&'a self, context: &Context) -> (shown: Option<&'a str>)
        ensures
            match shown {
                Some(address) => self.email_shown_to(context@.user) == Some(address@),
                None => self.email_shown_to(context@.user) is None,
            },
    {
        match context.user() {
            None => None,
            Some(logged_in_user) => {
                if logged_in_user.id != self.id {
                    None
                } else {
                    Some(self.email.as_str())
                }
            },
        }
    }
}

/// A request to replace the password, authorised by the current one.
#[derive(Debug)]
pub struct PasswordChange {
    pub current: String,
    pub new: String,
}

/// Mathematical model of a `PasswordChange`.
pub struct PasswordChangeView {
    pub current: Seq<char>,
    pub new: Seq<char>,
}

impl View for PasswordChange {
    type V = PasswordChangeView;

    open spec fn view(&self) -> PasswordChangeView {
        PasswordChangeView { current: self.current@, new: self.new@ }
    }
}

} // verus!
