//! The public events other services read: what the authentication service
//! publishes about users and accounts.

use vstd::prelude::*;
use crate::model_key::ModelKey;

verus! {

/// Public events of the authentication service as a whole.
#[derive(Debug)]
pub enum PubAuthEvent {
    UserCreated { pseudo: String },
    AccountCreated { name: String },
    AccountDeleted,
}

/// Public events about users.
#[derive(Debug)]
pub enum PubUserEvent {
    UserCreated { pseudo: String },
}

/// Public events about the accounts a user holds in an application.
#[derive(Debug)]
pub enum PubAccountEvent {
    AccountCreated { user_id: ModelKey, app_id: ModelKey, name: String },
    AccountSuspended,
    AccountResumed,
}

} // verus!
