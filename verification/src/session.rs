//! The session kept in the private cookie: where to send the user back, the
//! logged-in user, the application being authorized, and the CSRF guard of
//! the last form served.

use vstd::prelude::*;
use crate::datetime::{is_after, is_clock_reading, utc_now, UtcDateTime};
use crate::model_key::ModelKey;
use crate::random::{is_token, random_token};
use crate::links::KeyView;
use crate::text::str_eq;
use crate::url::{spec_parse_url, HostKind, Url, UrlParseError};

verus! {

/// How long a CSRF guard stays valid, in seconds (ten minutes).
pub const CSRF_LIFETIME_SECS: i64 = 600;

/// The length of a CSRF value.
pub const CSRF_VALUE_LEN: usize = 40;

/// The user a session is logged in as.
#[derive(Debug)]
pub struct LoggedInUser {
    pub user_id: ModelKey,
    pub pseudo: String,
    pub is_admin: bool,
}

impl LoggedInUser {
    /// A copy of this user.
    pub fn duplicate(&self) -> (r: LoggedInUser)
        ensures
            r.user_id@ == self.user_id@,
            r.pseudo@ == self.pseudo@,
            r.is_admin == self.is_admin,
    {
        LoggedInUser { user_id: self.user_id.duplicate(), pseudo: self.pseudo.clone(), is_admin: self.is_admin }
    }
}

/// A CSRF guard: a random value, the form it guards and when it expires.
#[derive(Debug)]
pub struct Csrf {
    value: String,
    expire: UtcDateTime,
    form: String,
}

/// The view of a CSRF guard: value, expiry, form.
pub struct CsrfView {
    pub value: Seq<char>,
    pub expire: UtcDateTime,
    pub form: Seq<char>,
}

impl View for Csrf {
    type V = CsrfView;

    closed spec fn view(&self) -> CsrfView {
        CsrfView { value: self.value@, expire: self.expire, form: self.form@ }
    }
}

/// A guard accepts a submission of `form` with `value` at `now` when it guards
/// that form, has not expired, and holds that value.
pub open spec fn csrf_accepts(c: CsrfView, form: Seq<char>, value: Seq<char>, now: UtcDateTime) -> bool {
    c.form == form && !is_after(now, c.expire) && c.value == value
}

impl Csrf {
    /// A guard of `form` holding `value`, created at `now`: it expires ten
    /// minutes later.
    pub fn new_at(form: &str, value: String, now: UtcDateTime) -> (r: Csrf)
        requires
            now.secs + CSRF_LIFETIME_SECS <= i64::MAX,
        ensures
            r@.value == value@,
            r@.form == form@,
            r@.expire.secs == now.secs + CSRF_LIFETIME_SECS,
            r@.expire.nanos == now.nanos,
    {
        Csrf { value, expire: now.plus_seconds(CSRF_LIFETIME_SECS), form: String::from_str(form) }
    }

    /// A fresh guard of `form`: a random value of forty letters and digits,
    /// expiring ten minutes from now.
    pub fn new(form: &str) -> (r: Csrf)
        ensures
            r@.form == form@,
            is_token(r@.value, CSRF_VALUE_LEN as nat),
            exists|now: UtcDateTime| is_clock_reading(now) && r@.expire == (UtcDateTime {
                secs: (now.secs + CSRF_LIFETIME_SECS) as i64,
                nanos: now.nanos,
            }),
    {
        let value = random_token(CSRF_VALUE_LEN);
        let now = utc_now();
        Csrf::new_at(form, value, now)
    }

    /// A guard from its parts.
    pub fn from_parts(value: String, expire: UtcDateTime, form: String) -> (r: Csrf)
        ensures
            r@ == (CsrfView { value: value@, expire, form: form@ }),
    {
        Csrf { value, expire, form }
    }

    /// Whether the guard accepts a submission of `form` with `value` at `now`.
    pub fn check_at(&self, form: &str, value: &str, now: UtcDateTime) -> (r: bool)
        ensures
            r == csrf_accepts(self@, form@, value@, now),
    {
        if !str_eq(self.form.as_str(), form) {
            return false;
        }
        if now.after(&self.expire) {
            return false;
        }
        str_eq(self.value.as_str(), value)
    }

    /// Whether the guard accepts a submission of `form` with `value` now.
    pub fn check(&self, form: &str, value: &str) -> (r: bool)
        ensures
            exists|now: UtcDateTime| is_clock_reading(now) && r == csrf_accepts(self@, form@, value@, now),
    {
        let now = utc_now();
        self.check_at(form, value, now)
    }

    /// The value of the guard.
    pub fn value(&self) -> (r: &str)
        ensures
            r@ == self@.value,
    {
        self.value.as_str()
    }

    /// When the guard expires.
    pub fn expire(&self) -> (r: UtcDateTime)
        ensures
            r == self@.expire,
    {
        self.expire
    }

    /// The form the guard protects.
    pub fn form(&self) -> (r: &str)
        ensures
            r@ == self@.form,
    {
        self.form.as_str()
    }

    /// A copy of this guard.
    pub fn duplicate(&self) -> (r: Csrf)
        ensures
            r@ == self@,
    {
        Csrf { value: self.value.clone(), expire: self.expire, form: self.form.clone() }
    }
}

/// `now` lies no later than the lifetime of a guard after `made`.
pub open spec fn within_lifetime(now: UtcDateTime, made: UtcDateTime) -> bool {
    now.secs < made.secs + CSRF_LIFETIME_SECS || (now.secs == made.secs + CSRF_LIFETIME_SECS && now.nanos
        <= made.nanos)
}

/// A guard made at a clock reading `made` (as `Csrf::new` makes it) accepts
/// exactly the submissions of its own form with its own value at instants no
/// later than ten minutes after `made`: another form, another value, or a
/// later instant is refused.
pub proof fn law_csrf_window(c: CsrfView, made: UtcDateTime, form: Seq<char>, value: Seq<char>, now: UtcDateTime)
    requires
        is_clock_reading(made),
        c.expire == (UtcDateTime { secs: (made.secs + CSRF_LIFETIME_SECS) as i64, nanos: made.nanos }),
    ensures
        csrf_accepts(c, form, value, now) <==> (form == c.form && value == c.value && within_lifetime(now, made)),
{
}

/// Why a submission's CSRF value is refused.
#[derive(Clone, Copy, Debug, PartialEq, Eq, Structural)]
pub enum CsrfError {
    /// The session holds no guard.
    NoCsrf,
    /// The guard refuses the submission.
    WrongCsrf,
}

impl CsrfError {
    /// The message of the error.
    pub fn message(&self) -> (r: &'static str)
        ensures
            r@ == (match *self {
                CsrfError::NoCsrf => "no csrf"@,
                CsrfError::WrongCsrf => "wrong csrf"@,
            }),
    {
        match self {
            CsrfError::NoCsrf => "no csrf",
            CsrfError::WrongCsrf => "wrong csrf",
        }
    }
}

/// The view of a logged-in user: key, pseudo, administrator flag.
pub open spec fn logged_view(u: LoggedInUser) -> (KeyView, Seq<char>, bool) {
    (u.user_id@, u.pseudo@, u.is_admin)
}

/// The view of an optional key.
pub open spec fn opt_key_view(k: Option<ModelKey>) -> Option<KeyView> {
    match k {
        Some(k) => Some(k@),
        None => None,
    }
}

/// The view of an optional logged-in user.
pub open spec fn opt_user_view(u: Option<LoggedInUser>) -> Option<(KeyView, Seq<char>, bool)> {
    match u {
        Some(u) => Some(logged_view(u)),
        None => None,
    }
}

/// The view of an optional CSRF guard.
pub open spec fn opt_csrf_view(c: Option<Csrf>) -> Option<CsrfView> {
    match c {
        Some(c) => Some(c@),
        None => None,
    }
}

/// The abstract session.
pub struct SessionView {
    pub application: Option<KeyView>,
    pub redirect_url: (Seq<char>, HostKind),
    pub user: Option<(KeyView, Seq<char>, bool)>,
    pub csrf: Option<CsrfView>,
}

/// The session data.
#[derive(Debug)]
pub struct SessionData {
    application: Option<ModelKey>,
    redirect_url: Url,
    user: Option<LoggedInUser>,
    csrf: Option<Csrf>,
}

impl View for SessionData {
    type V = SessionView;

    closed spec fn view(&self) -> SessionView {
        SessionView {
            application: opt_key_view(self.application),
            redirect_url: self.redirect_url@,
            user: opt_user_view(self.user),
            csrf: opt_csrf_view(self.csrf),
        }
    }
}

/// What checking a submission against the session decides.
pub open spec fn csrf_outcome(s: SessionView, form: Seq<char>, value: Seq<char>, now: UtcDateTime) -> Result<(), CsrfError> {
    match s.csrf {
        None => Err(CsrfError::NoCsrf),
        Some(c) => if csrf_accepts(c, form, value, now) {
            Ok(())
        } else {
            Err(CsrfError::WrongCsrf)
        },
    }
}

/// A session holding a guard made at a clock reading `made` accepts a
/// submission exactly when it is of the guard's form, with the guard's value,
/// no later than ten minutes after `made`; it refuses any other with
/// `WrongCsrf`. A session with no guard refuses every submission with
/// `NoCsrf`.
pub proof fn law_session_csrf_window(s: SessionView, made: UtcDateTime, form: Seq<char>, value: Seq<char>, now: UtcDateTime)
    requires
        s.csrf matches Some(c) ==> is_clock_reading(made) && c.expire == (UtcDateTime {
            secs: (made.secs + CSRF_LIFETIME_SECS) as i64,
            nanos: made.nanos,
        }),
    ensures
        s.csrf is None ==> csrf_outcome(s, form, value, now) == Err::<(), CsrfError>(CsrfError::NoCsrf),
        s.csrf matches Some(c) ==> csrf_outcome(s, form, value, now) == (if form == c.form && value == c.value
            && within_lifetime(now, made) {
            Ok::<(), CsrfError>(())
        } else {
            Err(CsrfError::WrongCsrf)
        }),
{
    if let Some(c) = s.csrf {
        law_csrf_window(c, made, form, value, now);
    }
}

impl SessionData {
    /// A fresh session whose redirection points at the service's own host
    /// (`auth_host`), with no application, user or guard.
    pub fn new(auth_host: &str) -> (r: Result<SessionData, UrlParseError>)
        ensures
            match r {
                Ok(s) => spec_parse_url(auth_host@) == Ok::<(Seq<char>, HostKind), UrlParseError>(s@.redirect_url)
                    && s@.application is None && s@.user is None && s@.csrf is None,
                Err(e) => spec_parse_url(auth_host@) == Err::<(Seq<char>, HostKind), UrlParseError>(e),
            },
    {
        match Url::parse(auth_host) {
            Ok(url) => Ok(SessionData { application: None, redirect_url: url, user: None, csrf: None }),
            Err(e) => Err(e),
        }
    }

    /// A session from its parts.
    pub fn from_parts(
        application: Option<ModelKey>,
        redirect_url: Url,
        user: Option<LoggedInUser>,
        csrf: Option<Csrf>,
    ) -> (r: SessionData)
        ensures
            r@ == (SessionView {
                application: opt_key_view(application),
                redirect_url: redirect_url@,
                user: opt_user_view(user),
                csrf: opt_csrf_view(csrf),
            }),
    {
        SessionData { application, redirect_url, user, csrf }
    }

    /// Where to send the user next.
    pub fn redirect_url(&self) -> (r: &Url)
        ensures
            r@ == self@.redirect_url,
    {
        &self.redirect_url
    }

    /// Sets where to send the user next.
    pub fn set_redirect_url(&mut self, redirect_url: Url)
        ensures
            final(self)@ == (SessionView { redirect_url: redirect_url@, ..old(self)@ }),
    {
        self.redirect_url = redirect_url;
    }

    /// The logged-in user.
    pub fn user(&self) -> (r: &Option<LoggedInUser>)
        ensures
            opt_user_view(*r) == self@.user,
    {
        &self.user
    }

    /// Sets the logged-in user.
    pub fn set_user(&mut self, user: Option<LoggedInUser>)
        ensures
            final(self)@ == (SessionView { user: opt_user_view(user), ..old(self)@ }),
    {
        self.user = user;
    }

    /// The application being authorized.
    pub fn application(&self) -> (r: &Option<ModelKey>)
        ensures
            opt_key_view(*r) == self@.application,
    {
        &self.application
    }

    /// Sets the application being authorized.
    pub fn set_application(&mut self, application: Option<ModelKey>)
        ensures
            final(self)@ == (SessionView { application: opt_key_view(application), ..old(self)@ }),
    {
        self.application = application;
    }

    /// The CSRF guard of the last form served.
    pub fn csrf(&self) -> (r: &Option<Csrf>)
        ensures
            opt_csrf_view(*r) == self@.csrf,
    {
        &self.csrf
    }

    /// Sets the CSRF guard.
    pub fn set_csrf(&mut self, csrf: Option<Csrf>)
        ensures
            final(self)@ == (SessionView { csrf: opt_csrf_view(csrf), ..old(self)@ }),
    {
        self.csrf = csrf;
    }

    /// Checks a submission of `form` with `value` at `now` against the guard.
    pub fn check_csrf_at(&self, form: &str, value: &str, now: UtcDateTime) -> (r: Result<(), CsrfError>)
        ensures
            r == csrf_outcome(self@, form@, value@, now),
    {
        match &self.csrf {
            None => Err(CsrfError::NoCsrf),
            Some(csrf) => {
                if !csrf.check_at(form, value, now) {
                    Err(CsrfError::WrongCsrf)
                } else {
                    Ok(())
                }
            },
        }
    }

    /// Checks a submission of `form` with `value` against the guard, now.
    pub fn check_csrf(&self, form: &str, value: &str) -> (r: Result<(), CsrfError>)
        ensures
            exists|now: UtcDateTime| is_clock_reading(now) && r == csrf_outcome(self@, form@, value@, now),
    {
        let now = utc_now();
        self.check_csrf_at(form, value, now)
    }
}

} // verus!
