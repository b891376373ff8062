//! Authenticated short-link service core.
//!
//! The crate verifies the logic of an account/short-link API: input
//! validation, credential hashing, token issue and validation, bearer
//! authentication, the uniform response envelope, and the ownership,
//! uniqueness and soft-delete rules over an in-memory account/link store.
//! Password hashing, token signing and email/URL syntax checks are made
//! through trusted wrappers over their crates; everything around those
//! calls is verified.

pub mod auth;
pub mod config;
pub mod create_url;
pub mod delete_url;
pub mod get_url;
pub mod get_url_list;
pub mod hash;
pub mod jwt;
pub mod laws;
pub mod login;
pub mod me;
pub mod register;
pub mod response;
pub mod store;
pub mod text;
pub mod update_url;
pub mod validate;
