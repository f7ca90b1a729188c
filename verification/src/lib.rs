//! Account management core: credential hashing, shape validation of account
//! fields, classification of store failures, and the request-scoped session
//! that tracks who is signed in.

pub mod context;
pub mod errors;
pub mod hasher;
pub mod identity;
pub mod laws;
pub mod model;
pub mod service;
pub mod store;
pub mod text;
pub mod user;
pub mod validation;
