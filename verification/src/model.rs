//! The records of the database-backed store: an account, an application and
//! a one-time token, as read from their tables.

use vstd::prelude::*;
use crate::model_key::{spec_parse_uuid, uuid_from_str};

verus! {

/// An account row.
#[derive(Debug)]
pub struct Account {
    uuid: String,
    pseudo: String,
    role: Option<String>,
}

impl Account {
    /// An account row from its columns.
    pub fn new(uuid: String, pseudo: String, role: Option<String>) -> (r: Account)
        ensures
            r.uuid_text() == uuid@,
            r.pseudo_text() == pseudo@,
    {
        Account { uuid, pseudo, role }
    }

    /// The text of the account's id.
    pub closed spec fn uuid_text(&self) -> Seq<char> {
        self.uuid@
    }

    /// The account's pseudo.
    pub closed spec fn pseudo_text(&self) -> Seq<char> {
        self.pseudo@
    }

    /// The account's id; the row must hold a UUID.
    pub fn uuid(&self) -> (r: u128)
        requires
            spec_parse_uuid(self.uuid_text()) is Some,
        ensures
            Some(r) == spec_parse_uuid(self.uuid_text()),
    {
        match uuid_from_str(self.uuid.as_str()) {
            Some(u) => u,
            None => vstd::pervasive::unreached(),
        }
    }

    /// The account's id, or `None` when the row does not hold a UUID.
    pub fn try_uuid(&self) -> (r: Option<u128>)
        ensures
            r == spec_parse_uuid(self.uuid_text()),
    {
        if uuid_from_str(self.uuid.as_str()).is_some() {
            Some(self.uuid())
        } else {
            None
        }
    }

    /// The account's pseudo.
    pub fn pseudo(&self) -> (r: &str)
        ensures
            r@ == self.pseudo_text(),
    {
        self.pseudo.as_str()
    }
}

/// An application row.
#[derive(Debug)]
pub struct Application {
    uuid: String,
    name: String,
    host: String,
    app_key: String,
}

/// The view of an application row: id, name, host, key.
pub struct ApplicationRow {
    pub uuid: Seq<char>,
    pub name: Seq<char>,
    pub host: Seq<char>,
    pub app_key: Seq<char>,
}

impl View for Application {
    type V = ApplicationRow;

    closed spec fn view(&self) -> ApplicationRow {
        ApplicationRow { uuid: self.uuid@, name: self.name@, host: self.host@, app_key: self.app_key@ }
    }
}

impl Application {
    /// An application row from its columns.
    pub fn new(uuid: String, name: String, host: String, app_key: String) -> (r: Application)
        ensures
            r@ == (ApplicationRow { uuid: uuid@, name: name@, host: host@, app_key: app_key@ }),
    {
        Application { uuid, name, host, app_key }
    }

    /// The application's id.
    pub fn uuid(&self) -> (r: &str)
        ensures
            r@ == self@.uuid,
    {
        self.uuid.as_str()
    }

    /// The application's name.
    pub fn name(&self) -> (r: &str)
        ensures
            r@ == self@.name,
    {
        self.name.as_str()
    }

    /// The application's host.
    pub fn host(&self) -> (r: &str)
        ensures
            r@ == self@.host,
    {
        self.host.as_str()
    }

    /// The application's key.
    pub fn app_key(&self) -> (r: &str)
        ensures
            r@ == self@.app_key,
    {
        self.app_key.as_str()
    }
}

/// A one-time token row.
#[derive(Debug)]
pub struct OneTimeToken {
    application_id: String,
    account_id: String,
    token: String,
}

/// The view of a one-time token row: application, account, token.
pub struct OneTimeTokenRow {
    pub application_id: Seq<char>,
    pub account_id: Seq<char>,
    pub token: Seq<char>,
}

impl View for OneTimeToken {
    type V = OneTimeTokenRow;

    closed spec fn view(&self) -> OneTimeTokenRow {
        OneTimeTokenRow { application_id: self.application_id@, account_id: self.account_id@, token: self.token@ }
    }
}

impl OneTimeToken {
    /// A one-time token row from its columns.
    pub fn new(application_id: String, account_id: String, token: String) -> (r: OneTimeToken)
        ensures
            r@ == (OneTimeTokenRow { application_id: application_id@, account_id: account_id@, token: token@ }),
    {
        OneTimeToken { application_id, account_id, token }
    }

    /// The application the token is for.
    pub fn application_id(&self) -> (r: &str)
        ensures
            r@ == self@.application_id,
    {
        self.application_id.as_str()
    }

    /// The account the token is for.
    pub fn account_id(&self) -> (r: &str)
        ensures
            r@ == self@.account_id,
    {
        self.account_id.as_str()
    }
}

} // verus!
