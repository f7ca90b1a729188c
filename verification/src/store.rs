//! The boundary to the account store.
//!
//! The store is a relational database that this library never talks to. The
//! library says what to ask of it, as one of the request values below, and
//! reads what came back: the row the store returned, or the reason there is
//! none.

use crate::model::option_view;
use vstd::prelude::*;
use vstd::std_specs::convert::FromSpecImpl;

verus! {

/// The error type of the store client.
#[verifier::external_type_specification]
#[verifier::external_body]
pub struct ExStoreClientError(tokio_postgres::Error);

/// Why a store operation produced no row.
#[derive(Debug)]
pub enum StoreFailure {
    /// No connection to the store could be had.
    Unavailable,
    /// The store client ran the operation and reported an error, described
    /// here in words.
    Client(String),
}

impl Clone for StoreFailure {
    fn clone(&self) -> (copy: StoreFailure)
        ensures
            copy == *self,
    {
        match self {
            StoreFailure::Unavailable => StoreFailure::Unavailable,
            StoreFailure::Client(description) => StoreFailure::Client(description.clone()),
        }
    }
}

/// Formats a `tokio_postgres::Error` with its `Debug` impl, which prints the
/// error's kind and its cause, the latter with every field of a database
/// error: message, detail and the name of a violated constraint among them.
///
/// Trusted, and nothing is claimed of the text: verified code reads it
/// whatever it holds.
#[verifier::external_body]
pub(crate) fn describe(error: &tokio_postgres::Error) -> (description: String) {
    format!("{:?}", error)
}

impl From<tokio_postgres::Error> for StoreFailure {
    /// Keeps of an error of the store client what the library reads: its
    /// description.
    fn from(client_error: tokio_postgres::Error) -> (failure: StoreFailure)
        ensures
            failure is Client,
    {
        StoreFailure::Client(describe(&client_error))
    }
}

impl FromSpecImpl<tokio_postgres::Error> for StoreFailure {
    open spec fn obeys_from_spec() -> bool {
        false
    }

    open spec fn from_spec(client_error: tokio_postgres::Error) -> StoreFailure {
        arbitrary()
    }
}

/// The username and email address of an account, as the store holds them.
#[derive(Debug)]
pub struct AccountNames {
    pub username: String,
    pub email: String,
}

/// Create an account: the store answers with the username and email address
/// it recorded, or rejects the request where either is already taken.
#[derive(Debug)]
pub struct CreateAccount {
    pub id: u128,
    pub username: String,
    pub email: String,
    pub password: Vec<u8>,
}

/// Mathematical model of a `CreateAccount`.
pub struct CreateAccountView {
    pub id: u128,
    pub username: Seq<char>,
    pub email: Seq<char>,
    pub password: Seq<u8>,
}

impl View for CreateAccount {
    type V = CreateAccountView;

    open spec fn view(&self) -> CreateAccountView {
        CreateAccountView {
            id: self.id,
            username: self.username@,
            email: self.email@,
            password: self.password@,
        }
    }
}

/// Look an account up by username or email address and compare its digest:
/// the store answers with the account, or with none.
#[derive(Debug)]
pub struct Authenticate {
    pub username_or_email: String,
    pub password: Vec<u8>,
}

/// Mathematical model of an `Authenticate`.
pub struct AuthenticateView {
    pub username_or_email: Seq<char>,
    pub password: Seq<u8>,
}

impl View for Authenticate {
    type V = AuthenticateView;

    open spec fn view(&self) -> AuthenticateView {
        AuthenticateView { username_or_email: self.username_or_email@, password: self.password@ }
    }
}

/// Delete an account if the digest matches: the store answers whether it did.
#[derive(Debug)]
pub struct RemoveAccount {
    pub id: u128,
    pub password: Vec<u8>,
}

/// Mathematical model of a `RemoveAccount`.
pub struct RemoveAccountView {
    pub id: u128,
    pub password: Seq<u8>,
}

impl View for RemoveAccount {
    type V = RemoveAccountView;

    open spec fn view(&self) -> RemoveAccountView {
        RemoveAccountView { id: self.id, password: self.password@ }
    }
}

/// Update an account in one conditional step. A field that is absent keeps its
/// value. The account is touched only if `current_password` is absent or
/// equals the stored digest; otherwise the store updates no row.
#[derive(Debug)]
pub struct UpdateAccount {
    pub id: u128,
    pub current_password: Option<Vec<u8>>,
    pub new_email: Option<String>,
    pub new_username: Option<String>,
    pub new_password: Option<Vec<u8>>,
}

/// Mathematical model of an `UpdateAccount`.
pub struct UpdateAccountView {
    pub id: u128,
    pub current_password: Option<Seq<u8>>,
    pub new_email: Option<Seq<char>>,
    pub new_username: Option<Seq<char>>,
    pub new_password: Option<Seq<u8>>,
}

impl View for UpdateAccount {
    type V = UpdateAccountView;

    open spec fn view(&self) -> UpdateAccountView {
        UpdateAccountView {
            id: self.id,
            current_password: option_view(self.current_password),
            new_email: option_view(self.new_email),
            new_username: option_view(self.new_username),
            new_password: option_view(self.new_password),
        }
    }
}

} // verus!
