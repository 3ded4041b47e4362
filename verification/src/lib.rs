//! Verified core of the horfimbor authentication service: the event-sourced
//! user, account and application models, sessions, redirections and the
//! decisions that the web handlers and event consumers take.

pub mod datetime;
pub mod random;
pub mod text;
pub mod model_key;
pub mod url;
pub mod events;
pub mod links;
pub mod user;
pub mod user_laws;
pub mod account;
pub mod application;
pub mod model_laws;
pub mod session;
pub mod redirect;
pub mod password;
pub mod connexion;
pub mod authorization;
pub mod consumer;
pub mod admin;
pub mod model;
pub mod error;

use vstd::prelude::*;

verus! {

/// The name of the account state.
pub const AUTH_ACCOUNT_EVENT: &'static str = "AUTH_ACCOUNT_EVENT";
/// The name of the application state.
pub const AUTH_APPLICATION_EVENT: &'static str = "AUTH_APPLICATION_EVENT";
/// The name of the user state.
pub const AUTH_USER_EVENT: &'static str = "AUTH_USER_EVENT";

/// The stream of users.
pub const AUTH_USER_STREAM: &'static str = "user_stream";
/// The stream of applications.
pub const AUTH_APPLICATION_STREAM: &'static str = "apps_stream";
/// The stream of accounts.
pub const AUTH_ACCOUNT_STREAM: &'static str = "account_stream";

/// The kind from which user keys derive (with the user's identity).
pub const AUTH_USER_UUID: &'static str = "AUTH_USER_UUID";
/// The kind from which application keys derive (with the application's host).
pub const AUTH_APPLICATION_UUID: &'static str = "AUTH_APPLICATION_UUID";

/// The cookie that holds the session.
pub const COOKIE_SESSION: &'static str = "RUSTSESSID";
/// The cookie that holds a login error.
pub const COOKIE_ERROR: &'static str = "SPACE_X";
/// The cache key of the list of applications.
pub const APPLICATION_LIST_REDIS_KEY: &'static str = "application_list";

} // verus!
