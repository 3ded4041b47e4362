//! Logging in, registering and the guards of the pages that need a logged-in
//! user or an administrator.

use vstd::prelude::*;
use crate::links::KeyView;
use crate::model_key::{spec_uuid_v8, ModelKey};
use crate::password::{hash_password, spec_argon2_hash, spec_verify_password, verify_password, PasswordError};
use crate::session::{logged_view, LoggedInUser, SessionData, SessionView};
use crate::text::{replace_char, str_eq};
use crate::datetime::UtcDateTime;
use crate::user::{default_user, user_after_all, user_decision, UserCommand, UserEvent, UserRole, UserState, UserView};
use crate::user_laws::law_create_user;
use crate::{AUTH_USER_STREAM, AUTH_USER_UUID};

verus! {

/// The key of the user an identity (an email address) names.
pub fn user_key(identity: &str) -> (r: ModelKey)
    ensures
        r@ == (replace_char(AUTH_USER_STREAM@, '-', '_'), spec_uuid_v8(AUTH_USER_UUID@, identity@)),
{
    ModelKey::new_uuid_v8(AUTH_USER_STREAM, AUTH_USER_UUID, identity)
}

/// Why a login is refused.
#[derive(Clone, Copy, Debug, PartialEq, Eq, Structural)]
pub enum LoginError {
    /// No user has this identity.
    LoginFailed,
    /// The user has no password hash.
    PasswordCorrupted,
    /// The stored hash is not a PHC string.
    PasswordHashingFailed,
    /// The password does not match.
    WrongPassword,
}

/// What checking a password against a user decides.
pub open spec fn login_outcome(u: UserView, password: Seq<char>) -> Result<(), LoginError> {
    if u == default_user() {
        Err(LoginError::LoginFailed)
    } else {
        match u.password_hash {
            None => Err(LoginError::PasswordCorrupted),
            Some(h) => match spec_verify_password(password, h) {
                Err(_) => Err(LoginError::PasswordHashingFailed),
                Ok(false) => Err(LoginError::WrongPassword),
                Ok(true) => Ok(()),
            },
        }
    }
}

impl LoginError {
    /// The message shown for the refusal.
    pub fn message(&self) -> (r: &'static str)
        ensures
            r@ == (match *self {
                LoginError::LoginFailed => "Login failed"@,
                LoginError::PasswordCorrupted => "Database password corrupted"@,
                LoginError::PasswordHashingFailed => "Password hashing failed"@,
                LoginError::WrongPassword => "Wrong password"@,
            }),
    {
        match self {
            LoginError::LoginFailed => "Login failed",
            LoginError::PasswordCorrupted => "Database password corrupted",
            LoginError::PasswordHashingFailed => "Password hashing failed",
            LoginError::WrongPassword => "Wrong password",
        }
    }
}

/// The login form: the identity (an email address) and the password.
#[derive(Debug)]
pub struct Login {
    pub identity: String,
    pub password: String,
}

/// Checks the password of a login form against the user its identity names.
pub fn check_login(user: &UserState, login: &Login) -> (r: Result<(), LoginError>)
    requires
        user.wf(),
    ensures
        r == login_outcome(user@, login.password@),
{
    let password = login.password.as_str();
    if user.is_default() {
        return Err(LoginError::LoginFailed);
    }
    let hash = match user.password_hash() {
        None => {
            return Err(LoginError::PasswordCorrupted);
        },
        Some(h) => h,
    };
    match verify_password(password, hash.as_str()) {
        Err(_) => Err(LoginError::PasswordHashingFailed),
        Ok(false) => Err(LoginError::WrongPassword),
        Ok(true) => Ok(()),
    }
}

/// The session once `user` (with key `key`) has logged in: it holds the
/// user's key, pseudo and whether the user is an administrator.
pub open spec fn login_session(s: SessionView, key: KeyView, user: UserView) -> SessionView {
    SessionView { user: Some((key, user.pseudo, user.role == Some(UserRole::Admin))), ..s }
}

/// Whom the user guard lets through a session: the logged-in user, if any.
pub open spec fn user_guard(s: SessionView) -> Option<(KeyView, Seq<char>, bool)> {
    s.user
}

/// Whom the administrator guard lets through a session: the logged-in user,
/// if any and if an administrator.
pub open spec fn admin_guard(s: SessionView) -> Option<(KeyView, Seq<char>, bool)> {
    match s.user {
        Some(u) => if u.2 {
            Some(u)
        } else {
            None
        },
        None => None,
    }
}

/// After a login, the user guard lets the logged-in user through, and the
/// administrator guard lets the user through exactly when the user is an
/// administrator; whoever was logged in before no longer counts.
pub proof fn law_login_then_guards(before: SessionView, key: KeyView, user: UserView)
    ensures
        user_guard(login_session(before, key, user)) == Some((key, user.pseudo, user.role == Some(UserRole::Admin))),
        admin_guard(login_session(before, key, user)) is Some <==> user.role == Some(UserRole::Admin),
        admin_guard(login_session(before, key, user)) is Some ==> admin_guard(login_session(before, key, user))
            == user_guard(login_session(before, key, user)),
{
}

/// Records in the session the user that a login (with key `key`) produced,
/// and gives the address to send the user to: the session's redirection.
pub fn complete_login(session: &mut SessionData, key: ModelKey, user: &UserState) -> (r: String)
    ensures
        final(session)@ == login_session(old(session)@, key@, user@),
        r@ == old(session)@.redirect_url.0,
{
    let logged = LoggedInUser { user_id: key, pseudo: String::from_str(user.pseudo()), is_admin: user.is_admin() };
    session.set_user(Some(logged));
    String::from_str(session.redirect_url().as_str())
}

/// Why a registration is refused.
#[derive(Clone, Copy, Debug, PartialEq, Eq, Structural)]
pub enum RegisterError {
    /// The two passwords differ.
    PasswordMismatch,
    /// Hashing the password failed.
    HashFailed,
}

/// The registration form.
#[derive(Debug)]
pub struct Register {
    pub email: String,
    pub pseudo: String,
    pub password: String,
    pub password_check: String,
}

/// What a registration form calls for: the key of the user its email names,
/// and the command that creates that user. The two passwords must match, and
/// the password is stored hashed (it verifies against the stored hash).
pub fn registration_command(register: &Register) -> (r: Result<(ModelKey, UserCommand), RegisterError>)
    ensures
        (r == Err::<(ModelKey, UserCommand), RegisterError>(RegisterError::PasswordMismatch))
            <==> register.password@ != register.password_check@,
        r is Err ==> r->Err_0 == RegisterError::PasswordMismatch || r->Err_0 == RegisterError::HashFailed,
        r == Err::<(ModelKey, UserCommand), RegisterError>(RegisterError::HashFailed) ==> exists|salt: Seq<char>|
            spec_argon2_hash(register.password@, salt) is None,
        r matches Ok((k, c)) ==> register.password@ == register.password_check@
            && k@ == (replace_char(AUTH_USER_STREAM@, '-', '_'), spec_uuid_v8(AUTH_USER_UUID@, register.email@))
            && (c matches UserCommand::Create { pseudo: p, password_hash: h } && p@ == register.pseudo@
            && spec_verify_password(register.password@, h@) == Ok::<bool, PasswordError>(true)),
{
    if !str_eq(register.password.as_str(), register.password_check.as_str()) {
        return Err(RegisterError::PasswordMismatch);
    }
    match hash_password(register.password.as_str()) {
        Ok(password_hash) => {
            let key = user_key(register.email.as_str());
            Ok((key, UserCommand::Create { pseudo: register.pseudo.clone(), password_hash }))
        },
        Err(_) => Err(RegisterError::HashFailed),
    }
}

/// A user registered with a password logs in with that password: the events
/// of a registration on a fresh user give a state on which the password
/// check succeeds.
pub proof fn law_register_then_login(
    pseudo: String,
    password_hash: String,
    password: Seq<char>,
    now: UtcDateTime,
    evs: Seq<UserEvent>,
)
    requires
        spec_verify_password(password, password_hash@) == Ok::<bool, PasswordError>(true),
        user_decision(default_user(), UserCommand::Create { pseudo, password_hash }, now, Ok(evs)),
    ensures
        login_outcome(user_after_all(default_user(), evs), password) == Ok::<(), LoginError>(()),
{
    law_create_user(pseudo, password_hash, now, evs, pseudo, password_hash);
    let t = user_after_all(default_user(), evs);
    assert(t.password_hash != default_user().password_hash);
}

/// The page guard for logged-in users.
pub struct User {
    data: LoggedInUser,
}

impl View for User {
    type V = (KeyView, Seq<char>, bool);

    closed spec fn view(&self) -> (KeyView, Seq<char>, bool) {
        logged_view(self.data)
    }
}

impl User {
    /// The guard for a session: present when a user is logged in.
    pub fn from_session(session: &SessionData) -> (r: Option<User>)
        ensures
            match r {
                Some(u) => user_guard(session@) == Some(u@),
                None => user_guard(session@) is None,
            },
    {
        match session.user() {
            Some(data) => Some(User { data: data.duplicate() }),
            None => None,
        }
    }

    /// The logged-in user.
    pub fn data(&self) -> (r: &LoggedInUser)
        ensures
            logged_view(*r) == self@,
    {
        &self.data
    }
}

/// The page guard for administrators.
pub struct Admin {
    data: LoggedInUser,
}

impl View for Admin {
    type V = (KeyView, Seq<char>, bool);

    closed spec fn view(&self) -> (KeyView, Seq<char>, bool) {
        logged_view(self.data)
    }
}

impl Admin {
    /// The guard for a session: present when the logged-in user is an
    /// administrator.
    pub fn from_session(session: &SessionData) -> (r: Option<Admin>)
        ensures
            match r {
                Some(a) => admin_guard(session@) == Some(a@),
                None => admin_guard(session@) is None,
            },
    {
        match session.user() {
            Some(data) => {
                if data.is_admin {
                    Some(Admin { data: data.duplicate() })
                } else {
                    None
                }
            },
            None => None,
        }
    }

    /// The logged-in administrator.
    pub fn data(&self) -> (r: &LoggedInUser)
        ensures
            logged_view(*r) == self@,
    {
        &self.data
    }
}

} // verus!
