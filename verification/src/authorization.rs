//! The authorization flow: an application sends the user here with a
//! redirection, the user picks or creates an account, the application receives
//! a one-time token, and trades it (with its key) for a signed token.

use vstd::prelude::*;
use crate::account::{account_after_all, account_decision, one_time_text, AccountCommand, AccountError, AccountEvent, AccountState, AccountView};
use crate::model_laws::law_validate_account;
use crate::application::{is_default_application, ApplicationState};
use crate::links::{account_linked, links_of, KeyView, LinkView};
use crate::model_key::{is_v4_uuid, parse_key, spec_uuid_v8, uuid_hyphenated, ModelKey, ModelKeyError};
use crate::redirect::{redirect_outcome, RedirectUrl};
use crate::session::{SessionData, SessionView};
use crate::text::{before_first, joined, replace_char, split_first, str_eq};
use crate::url::{spec_parse_url, HostKind, Url, UrlParseError};
use crate::user::{UserCommand, UserState};
use crate::datetime::utc_now;
use crate::{AUTH_ACCOUNT_STREAM, AUTH_APPLICATION_STREAM, AUTH_APPLICATION_UUID};

verus! {

/// How long a signed token is valid, in seconds.
pub const TOKEN_LIFETIME_SECS: u64 = 3600;

/// Why a step of the authorization flow fails.
#[derive(Clone, Copy, Debug, PartialEq, Eq, Structural)]
pub enum AuthorizeError {
    /// The redirection is not a URL.
    InvalidRedirect(UrlParseError),
    /// No application is registered for the redirection.
    ApplicationNotFound,
    /// The session names no application.
    NoApplication,
    /// The chosen account is not a key.
    InvalidAccount(ModelKeyError),
    /// The chosen account is not the user's in this application.
    AccountNotLinked,
    /// Neither an account nor a new account name was given.
    NothingChosen,
    /// The account holds no one-time code.
    OneTimeCode(AccountError),
    /// The one-time token does not match the account's.
    WrongOneTimeToken,
    /// The application key does not match.
    WrongAppKey,
}

/// The key of the application registered for a URL.
pub fn application_key(url: &Url) -> (r: ModelKey)
    ensures
        r@ == (replace_char(AUTH_APPLICATION_STREAM@, '-', '_'), spec_uuid_v8(AUTH_APPLICATION_UUID@, url@.0)),
{
    ModelKey::new_uuid_v8(AUTH_APPLICATION_STREAM, AUTH_APPLICATION_UUID, url.as_str())
}

/// The redirection URL of an authorization request and the key of the
/// application registered for it.
pub fn authorize_target(redirect: &RedirectUrl) -> (r: Result<(Url, ModelKey), AuthorizeError>)
    ensures
        match r {
            Ok((u, k)) => redirect_outcome(redirect@) == Ok::<(Seq<char>, HostKind), UrlParseError>(u@)
                && k@ == (replace_char(AUTH_APPLICATION_STREAM@, '-', '_'), spec_uuid_v8(AUTH_APPLICATION_UUID@, u@.0)),
            Err(e) => redirect_outcome(redirect@) matches Err(p) && e == AuthorizeError::InvalidRedirect(p),
        },
{
    match redirect.url() {
        Ok(url) => {
            let key = application_key(&url);
            Ok((url, key))
        },
        Err(e) => Err(AuthorizeError::InvalidRedirect(e)),
    }
}

/// The page that asks the user which account to use.
pub struct AuthorizePage {
    pub application_name: String,
    pub accounts: Vec<(String, String)>,
}

/// The event-store name of a key (see `ModelKey::format`).
pub open spec fn format_text(k: KeyView) -> Seq<char> {
    replace_char(k.0, '.', '_') + seq!['-'] + uuid_hyphenated(k.1)
}

/// The accounts listed on the page: each account's event-store name and label.
pub open spec fn listed_accounts(l: Seq<LinkView>) -> Seq<(Seq<char>, Seq<char>)> {
    l.map_values(|p: LinkView| (format_text(p.0), p.1))
}

/// The view of the listed accounts.
pub open spec fn pairs_view(v: Seq<(String, String)>) -> Seq<(Seq<char>, Seq<char>)> {
    v.map_values(|p: (String, String)| (p.0@, p.1@))
}

/// Prepares the authorization of `application` (registered under `app_key`
/// for `url`) by `user`: an application that was never created is refused and
/// the session is left alone; otherwise the session remembers the
/// redirection and the application, and the page lists the user's accounts
/// in this application.
pub fn authorize_page(
    session: &mut SessionData,
    url: Url,
    app_key: ModelKey,
    application: &ApplicationState,
    user: &UserState,
) -> (r: Result<AuthorizePage, AuthorizeError>)
    requires
        user.wf(),
    ensures
        is_default_application(application@) ==> r == Err::<AuthorizePage, AuthorizeError>(AuthorizeError::ApplicationNotFound)
            && final(session)@ == old(session)@,
        !is_default_application(application@) ==> r is Ok && final(session)@ == (SessionView {
            redirect_url: url@,
            application: Some(app_key@),
            ..old(session)@
        }),
        r matches Ok(page) ==> page.application_name@ == application@.name && pairs_view(page.accounts@)
            == listed_accounts(links_of(user@.accounts, app_key@)),
{
    if application.is_default() {
        return Err(AuthorizeError::ApplicationNotFound);
    }
    let links = user.accounts(&app_key);
    session.set_redirect_url(url);
    session.set_application(Some(app_key));
    let mut accounts: Vec<(String, String)> = Vec::new();
    let mut i: usize = 0;
    while i < links.len()
        invariant
            i <= links@.len(),
            pairs_view(accounts@) =~= listed_accounts(crate::links::links_view(links@.take(i as int))),
        decreases links.len() - i,
    {
        let ghost before = accounts@;
        let pair = (links[i].0.format(), links[i].1.clone());
        accounts.push(pair);
        proof {
            assert(links@.take(i + 1) =~= links@.take(i as int).push(links@[i as int]));
            crate::links::lemma_links_view_push(links@.take(i as int), links@[i as int]);
            assert(pairs_view(accounts@) =~= pairs_view(before).push((pair.0@, pair.1@)));
        }
        i = i + 1;
    }
    assert(links@.take(links.len() as int) =~= links@);
    Ok(AuthorizePage { application_name: String::from_str(application.name()), accounts })
}

/// Sends a guest to log in first: the session's redirection becomes this
/// service's address (`base_host`) followed by the request's path and query.
pub fn guest_redirect(session: &mut SessionData, base_host: &str, uri: &str) -> (r: Result<(), UrlParseError>)
    ensures
        match spec_parse_url(base_host@ + uri@) {
            Ok(u) => r is Ok && final(session)@ == (SessionView { redirect_url: u, ..old(session)@ }),
            Err(e) => r == Err::<(), UrlParseError>(e) && final(session)@ == old(session)@,
        },
{
    let redirect = joined(base_host, uri);
    match Url::parse(redirect.as_str()) {
        Ok(url) => {
            session.set_redirect_url(url);
            Ok(())
        },
        Err(e) => Err(e),
    }
}

/// The authorization form: an existing account, or the name of a new one.
#[derive(Debug)]
pub struct Authorize {
    pub account: String,
    pub new_account: String,
}

/// The account the user chose on the authorization page.
#[derive(Debug)]
pub enum AuthorizeChoice {
    /// Create a new account with this name.
    NewAccount { name: String },
    /// Use this existing account.
    Existing { account: ModelKey },
}

/// What the authorization form decides: a new account when only its name is
/// given; else the given account, which must be the user's in the
/// application; else nothing was chosen.
pub fn authorize_choice(authorize: &Authorize, user: &UserState, app_key: &ModelKey) -> (r: Result<AuthorizeChoice, AuthorizeError>)
    requires
        user.wf(),
    ensures
        authorize.account@.len() == 0 && authorize.new_account@.len() != 0 ==> (r matches Ok(AuthorizeChoice::NewAccount { name }) && name@ == authorize.new_account@),
        authorize.account@.len() == 0 && authorize.new_account@.len() == 0 ==> r == Err::<AuthorizeChoice, AuthorizeError>(AuthorizeError::NothingChosen),
        authorize.account@.len() != 0 ==> match parse_key(authorize.account@) {
            None => r == Err::<AuthorizeChoice, AuthorizeError>(AuthorizeError::InvalidAccount(ModelKeyError::UuidError)),
            Some(k) => if account_linked(user@.accounts, app_key@, k) {
                r matches Ok(AuthorizeChoice::Existing { account: a }) && a@ == k
            } else {
                r == Err::<AuthorizeChoice, AuthorizeError>(AuthorizeError::AccountNotLinked)
            },
        },
{
    let account = authorize.account.as_str();
    let new_account = authorize.new_account.as_str();
    let account_empty = account.unicode_len() == 0;
    let new_empty = new_account.unicode_len() == 0;
    if account_empty && !new_empty {
        Ok(AuthorizeChoice::NewAccount { name: String::from_str(new_account) })
    } else if !account_empty {
        match ModelKey::try_from_str(account) {
            Err(e) => Err(AuthorizeError::InvalidAccount(e)),
            Ok(id) => {
                if user.has_account(app_key, &id) {
                    Ok(AuthorizeChoice::Existing { account: id })
                } else {
                    Err(AuthorizeError::AccountNotLinked)
                }
            },
        }
    } else {
        Err(AuthorizeError::NothingChosen)
    }
}

/// A key for a new account, with a fresh random UUID.
pub fn new_account_key() -> (r: ModelKey)
    ensures
        r@.0 == replace_char(AUTH_ACCOUNT_STREAM@, '-', '_'),
        is_v4_uuid(r@.1),
{
    ModelKey::new_uuid_v4(AUTH_ACCOUNT_STREAM)
}

/// The commands that create an account named `name` for `user_id` in
/// `app_id`: the account command, and the user command that links it.
pub fn new_account_commands(user_id: &ModelKey, app_id: &ModelKey, account: &ModelKey, name: &str) -> (r: (AccountCommand, UserCommand))
    ensures
        r.0 matches AccountCommand::Create { user_id: u, app_id: a, name: n } && u@ == user_id@ && a@ == app_id@ && n@ == name@,
        r.1 matches UserCommand::AddAccount { application: a, account: b, label: l } && a@ == app_id@ && b@ == account@ && l@ == name@,
{
    (
        AccountCommand::Create { user_id: user_id.duplicate(), app_id: app_id.duplicate(), name: String::from_str(name) },
        UserCommand::AddAccount { application: app_id.duplicate(), account: account.duplicate(), label: String::from_str(name) },
    )
}

/// Where the application receives its one-time token: its host followed by
/// `/auth?token=` and the token.
pub fn authorize_redirect(host: &Url, one_time: &str) -> (r: String)
    ensures
        r@ == host@.0 + "/auth?token="@ + one_time@,
{
    let mut out = String::from_str(host.as_str());
    out.append("/auth?token=");
    out.append(one_time);
    out
}

/// The account key a one-time token starts with: what stands before its
/// first bar, read as a key.
pub fn token_account_key(token: &str) -> (r: Result<ModelKey, ModelKeyError>)
    ensures
        parse_key(before_first(token@, '|')) is Some <==> r is Ok,
        r matches Ok(k) ==> parse_key(before_first(token@, '|')) == Some(k@),
{
    let (head, _) = split_first(token, '|');
    ModelKey::try_from_str(head)
}

/// What an application presents to trade a one-time token for a signed
/// token: the one-time token and the application's key.
#[derive(Debug)]
pub struct SingleUseToken {
    pub token: String,
    pub app_key: String,
}

/// What checking a one-time token against the account decides.
pub open spec fn one_time_check(
    code: Option<Seq<char>>,
    key: KeyView,
    token: Seq<char>,
) -> Result<(), AuthorizeError> {
    match code {
        None => Err(AuthorizeError::OneTimeCode(AccountError::NoOneTimeCode)),
        Some(c) => if one_time_text(key, c) == token {
            Ok(())
        } else {
            Err(AuthorizeError::WrongOneTimeToken)
        },
    }
}

/// Checks the one-time token an application presents against the account
/// (stored under `key`) it names.
pub fn check_one_time_token(account: &AccountState, key: &ModelKey, data: &SingleUseToken) -> (r: Result<(), AuthorizeError>)
    ensures
        r == one_time_check(account@.one_time_token, key@, data.token@),
{
    let token = data.token.as_str();
    match account.one_time_token(key) {
        Err(e) => Err(AuthorizeError::OneTimeCode(e)),
        Ok(expected) => {
            if str_eq(expected.as_str(), token) {
                Ok(())
            } else {
                Err(AuthorizeError::WrongOneTimeToken)
            }
        },
    }
}

/// The token an account hands out passes the check of that same account.
pub proof fn law_one_time_token_accepted(code: Seq<char>, key: KeyView)
    ensures
        one_time_check(Some(code), key, one_time_text(key, code)) == Ok::<(), AuthorizeError>(()),
{
}

/// A one-time token serves once: once the account is validated (which the
/// exchange of the token does), no token passes the check of the account
/// until a new one-time code is drawn.
pub proof fn law_one_time_token_single_use(
    s: AccountView,
    drawn: Seq<char>,
    evs: Seq<AccountEvent>,
    key: KeyView,
    token: Seq<char>,
)
    requires
        account_decision(s, AccountCommand::Validate, drawn, Ok(evs)),
    ensures
        one_time_check(account_after_all(s, evs).one_time_token, key, token) == Err::<(), AuthorizeError>(
            AuthorizeError::OneTimeCode(AccountError::NoOneTimeCode),
        ),
{
    law_validate_account(s, drawn, evs);
}

/// Checks the key an application presents.
pub fn check_app_key(application: &ApplicationState, data: &SingleUseToken) -> (r: Result<(), AuthorizeError>)
    ensures
        r is Ok <==> application@.key == data.app_key@,
        r is Err ==> r == Err::<(), AuthorizeError>(AuthorizeError::WrongAppKey),
{
    if str_eq(application.key(), data.app_key.as_str()) {
        Ok(())
    } else {
        Err(AuthorizeError::WrongAppKey)
    }
}

/// The claims of the signed token.
#[derive(Debug)]
pub struct Claims {
    /// The audience: the application's name.
    pub aud: String,
    /// When the token expires (seconds since the Unix epoch).
    pub exp: u64,
    /// When the token was issued (seconds since the Unix epoch).
    pub iat: u64,
    /// The issuer.
    pub iss: String,
    /// The subject.
    pub sub: String,
    /// The account key.
    pub id: String,
}

/// The claims of the token for the account under `key` in `application`,
/// issued at `now`: valid for an hour.
pub fn claims_at(application: &ApplicationState, key: &ModelKey, now: u64) -> (r: Claims)
    requires
        now + TOKEN_LIFETIME_SECS <= u64::MAX,
    ensures
        r.aud@ == application@.name,
        r.iat == now,
        r.exp == now + TOKEN_LIFETIME_SECS,
        r.iss@ == "login"@,
        r.sub@ == "user"@,
        r.id@ == crate::model_key::key_text(key@),
{
    Claims {
        aud: String::from_str(application.name()),
        exp: now + TOKEN_LIFETIME_SECS,
        iat: now,
        iss: String::from_str("login"),
        sub: String::from_str("user"),
        id: key.to_string(),
    }
}

/// The claims of the token for the account under `key` in `application`,
/// issued now.
pub fn claims(application: &ApplicationState, key: &ModelKey) -> (r: Claims)
    ensures
        r.aud@ == application@.name,
        r.iat < 0x800_0000_0000,
        r.exp == r.iat + TOKEN_LIFETIME_SECS,
        r.iss@ == "login"@,
        r.sub@ == "user"@,
        r.id@ == crate::model_key::key_text(key@),
{
    let now = utc_now();
    let secs = now.secs as u64;
    claims_at(application, key, secs)
}

} // verus!
