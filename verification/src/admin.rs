//! The administration of applications: the forms are guarded by a CSRF value
//! kept in the session.

use vstd::prelude::*;
use crate::application::ApplicationCommand;
use crate::model_key::{spec_parse_uuid, spec_uuid_v8, uuid_from_str, ModelKey};
use crate::random::is_token;
use crate::session::{
    csrf_outcome, law_session_csrf_window, within_lifetime, Csrf, CsrfError, SessionData, SessionView, CSRF_LIFETIME_SECS,
    CSRF_VALUE_LEN,
};
use crate::text::replace_char;
use crate::url::{spec_parse_url, Url, UrlParseError};
use crate::datetime::{is_clock_reading, UtcDateTime};
use crate::{AUTH_APPLICATION_STREAM, AUTH_APPLICATION_UUID};

verus! {

/// The form that the application guard protects.
pub const APPLICATION_CSRF: &'static str = "APPLICATION_CSRF";

/// Why an administration form is refused.
#[derive(Clone, Copy, Debug, PartialEq, Eq, Structural)]
pub enum AdminError {
    /// The CSRF check failed.
    Csrf(CsrfError),
    /// The application id is not a UUID.
    InvalidId,
    /// The host is not a URL.
    InvalidHost(UrlParseError),
}

/// The application form of the administration: a name, a host and the
/// value of the form's guard.
#[derive(Debug)]
pub struct Application {
    pub name: String,
    pub host: String,
    pub csrf: String,
}

/// Serves a guarded form: a fresh guard for the application form goes into
/// the session, and its value is returned for the page.
pub fn new_form_guard(session: &mut SessionData) -> (r: String)
    ensures
        final(session)@.csrf matches Some(c) && c.form == APPLICATION_CSRF@ && c.value == r@
            && exists|now: UtcDateTime| is_clock_reading(now) && c.expire == (UtcDateTime {
                secs: (now.secs + CSRF_LIFETIME_SECS) as i64,
                nanos: now.nanos,
            }),
        is_token(r@, CSRF_VALUE_LEN as nat),
        final(session)@.user == old(session)@.user,
        final(session)@.application == old(session)@.application,
        final(session)@.redirect_url == old(session)@.redirect_url,
{
    let csrf = Csrf::new(APPLICATION_CSRF);
    let value = String::from_str(csrf.value());
    session.set_csrf(Some(csrf));
    value
}

/// A guarded form served at a clock reading `made` passes the guard check
/// when submitted with the served value at any instant up to ten minutes
/// after `made`, and fails it with `WrongCsrf` with another value or later.
pub proof fn law_served_form_window(s: SessionView, made: UtcDateTime, value: Seq<char>, now: UtcDateTime)
    requires
        s.csrf matches Some(c) && c.form == APPLICATION_CSRF@ && is_clock_reading(made) && c.expire == (UtcDateTime {
            secs: (made.secs + CSRF_LIFETIME_SECS) as i64,
            nanos: made.nanos,
        }),
    ensures
        csrf_outcome(s, APPLICATION_CSRF@, value, now) is Ok <==> (value == s.csrf->Some_0.value && within_lifetime(
            now,
            made,
        )),
        csrf_outcome(s, APPLICATION_CSRF@, value, now) is Err ==> csrf_outcome(s, APPLICATION_CSRF@, value, now)
            == Err::<(), CsrfError>(CsrfError::WrongCsrf),
{
    law_session_csrf_window(s, made, APPLICATION_CSRF@, value, now);
}

/// The application an update form (checked at `now`) targets: the guard must
/// accept the form, and the id must be a UUID.
pub fn update_target_at(session: &SessionData, application: &Application, id: &str, now: UtcDateTime) -> (r: Result<ModelKey, AdminError>)
    ensures
        csrf_outcome(session@, APPLICATION_CSRF@, application.csrf@, now) matches Err(e) ==> r == Err::<ModelKey, AdminError>(AdminError::Csrf(e)),
        csrf_outcome(session@, APPLICATION_CSRF@, application.csrf@, now) is Ok ==> match spec_parse_uuid(id@) {
            None => r == Err::<ModelKey, AdminError>(AdminError::InvalidId),
            Some(u) => r matches Ok(k) && k@ == (replace_char(AUTH_APPLICATION_STREAM@, '-', '_'), u),
        },
{
    match session.check_csrf_at(APPLICATION_CSRF, application.csrf.as_str(), now) {
        Err(e) => Err(AdminError::Csrf(e)),
        Ok(()) => match uuid_from_str(id) {
            None => Err(AdminError::InvalidId),
            Some(u) => Ok(ModelKey::new(AUTH_APPLICATION_STREAM, u)),
        },
    }
}

/// The application key and the command that a creation form (checked at
/// `now`) calls for: the guard must accept the form, the key derives from the
/// host as typed, and the host must be a URL.
pub fn create_application_at(session: &SessionData, application: &Application, now: UtcDateTime) -> (r: Result<(ModelKey, ApplicationCommand), AdminError>)
    ensures
        csrf_outcome(session@, APPLICATION_CSRF@, application.csrf@, now) matches Err(e) ==> r == Err::<(ModelKey, ApplicationCommand), AdminError>(AdminError::Csrf(e)),
        csrf_outcome(session@, APPLICATION_CSRF@, application.csrf@, now) is Ok ==> match spec_parse_url(application.host@) {
            Err(e) => r == Err::<(ModelKey, ApplicationCommand), AdminError>(AdminError::InvalidHost(e)),
            Ok(u) => r matches Ok((k, c)) && k@ == (replace_char(AUTH_APPLICATION_STREAM@, '-', '_'), spec_uuid_v8(AUTH_APPLICATION_UUID@, application.host@))
                && (c matches ApplicationCommand::Create { name: n, host: h } && n@ == application.name@ && h@ == u),
        },
{
    match session.check_csrf_at(APPLICATION_CSRF, application.csrf.as_str(), now) {
        Err(e) => Err(AdminError::Csrf(e)),
        Ok(()) => {
            let key = ModelKey::new_uuid_v8(AUTH_APPLICATION_STREAM, AUTH_APPLICATION_UUID, application.host.as_str());
            match Url::parse(application.host.as_str()) {
                Err(e) => Err(AdminError::InvalidHost(e)),
                Ok(url) => Ok((key, ApplicationCommand::Create { name: application.name.clone(), host: url })),
            }
        },
    }
}

/// `update_target_at`, checked now.
pub fn update_target(session: &SessionData, application: &Application, id: &str) -> (r: Result<ModelKey, AdminError>)
    ensures
        exists|now: UtcDateTime| is_clock_reading(now) && ({
            &&& csrf_outcome(session@, APPLICATION_CSRF@, application.csrf@, now) matches Err(e) ==> r == Err::<ModelKey, AdminError>(AdminError::Csrf(e))
            &&& csrf_outcome(session@, APPLICATION_CSRF@, application.csrf@, now) is Ok ==> match spec_parse_uuid(id@) {
                None => r == Err::<ModelKey, AdminError>(AdminError::InvalidId),
                Some(u) => r matches Ok(k) && k@ == (replace_char(AUTH_APPLICATION_STREAM@, '-', '_'), u),
            }
        }),
{
    let now = crate::datetime::utc_now();
    update_target_at(session, application, id, now)
}

/// `create_application_at`, checked now.
pub fn create_application(session: &SessionData, application: &Application) -> (r: Result<(ModelKey, ApplicationCommand), AdminError>)
    ensures
        exists|now: UtcDateTime| is_clock_reading(now) && ({
            &&& csrf_outcome(session@, APPLICATION_CSRF@, application.csrf@, now) matches Err(e) ==> r == Err::<(ModelKey, ApplicationCommand), AdminError>(AdminError::Csrf(e))
            &&& csrf_outcome(session@, APPLICATION_CSRF@, application.csrf@, now) is Ok ==> match spec_parse_url(application.host@) {
                Err(e) => r == Err::<(ModelKey, ApplicationCommand), AdminError>(AdminError::InvalidHost(e)),
                Ok(u) => r matches Ok((k, c)) && k@ == (replace_char(AUTH_APPLICATION_STREAM@, '-', '_'), spec_uuid_v8(AUTH_APPLICATION_UUID@, application.host@))
                    && (c matches ApplicationCommand::Create { name: n, host: h } && n@ == application.name@ && h@ == u),
            }
        }),
{
    let now = crate::datetime::utc_now();
    create_application_at(session, application, now)
}

} // verus!
