//! The user model: the state that the user events build, the commands a user
//! accepts, and the events each command produces.

use vstd::prelude::*;
use crate::datetime::{is_clock_reading, utc_now, UtcDateTime};
use crate::events::PubUserEvent;
use crate::links::{
    add_entries, entries_map, entries_view, keys_distinct, account_linked, link_taken, links_of, links_view, map_after_add, map_after_remove,
    AccountLinks, KeyView, LinkView,
};
use crate::model_key::ModelKey;

verus! {

/// The role a user holds.
#[derive(Clone, Copy, Debug, PartialEq, Eq, Structural)]
pub enum UserRole {
    Admin,
    /// No particular role.
    NoRole,
}

impl UserRole {
    /// Reads a role by name: `Admin` is the administrator role, any other
    /// text gives no role.
    pub fn from(value: String) -> (r: UserRole)
        ensures
            r == (if value@ == "Admin"@ {
                UserRole::Admin
            } else {
                UserRole::NoRole
            }),
    {
        proof {
            reveal_strlit("Admin");
        }
        if value.as_str().unicode_len() == 5 && value.as_str().get_char(0) == 'A' && value.as_str().get_char(1) == 'd'
            && value.as_str().get_char(2) == 'm' && value.as_str().get_char(3) == 'i'
            && value.as_str().get_char(4) == 'n' {
            assert(value@ =~= "Admin"@);
            UserRole::Admin
        } else {
            assert(value@ != "Admin"@) by {
                if value@ == "Admin"@ {
                    assert(value@[0] == 'A' && value@[1] == 'd' && value@[2] == 'm' && value@[3] == 'i' && value@[4] == 'n');
                }
            }
            UserRole::NoRole
        }
    }
}

/// Commands on a user.
#[derive(Debug)]
pub enum UserCommand {
    Create { pseudo: String, password_hash: String },
    ChangePassword { password_hash: String },
    Login,
    ChangeRole(Option<UserRole>),
    AddAccount { application: ModelKey, account: ModelKey, label: String },
    RemoveAccount { application: ModelKey, account: ModelKey },
}

/// Why a user command is refused.
#[derive(Clone, Copy, Debug, PartialEq, Eq, Structural)]
pub enum UserError {
    LoginFail,
    AlreadyExists,
    SameRole,
    AccountAlreadyLinked,
    AccountAlreadyRemoved,
}

/// Events private to the authentication service.
#[derive(Debug)]
pub enum PrvUserEvent {
    Created { date: UtcDateTime },
    PasswordChanged { password_hash: String, date: UtcDateTime },
    LoggedIn(UtcDateTime),
    ChangeRole(Option<UserRole>),
    AccountAdded { application: ModelKey, account: ModelKey, label: String },
    AccountRemoved { application: ModelKey, account: ModelKey },
}

/// An event of the user stream.
#[derive(Debug)]
pub enum UserEvent {
    Private(PrvUserEvent),
    Public(PubUserEvent),
}

/// The abstract state of a user.
pub struct UserView {
    pub pseudo: Seq<char>,
    pub password_hash: Option<Seq<char>>,
    pub password_change: UtcDateTime,
    pub created_at: UtcDateTime,
    pub last_login: Option<UtcDateTime>,
    pub role: Option<UserRole>,
    pub accounts: Map<KeyView, Seq<LinkView>>,
}

/// The state of a user as its events build it.
#[derive(Debug)]
pub struct UserState {
    pseudo: String,
    password_hash: Option<String>,
    password_change: UtcDateTime,
    created_at: UtcDateTime,
    last_login: Option<UtcDateTime>,
    role: Option<UserRole>,
    accounts: AccountLinks,
}

/// The view of an optional string.
pub open spec fn opt_view(o: Option<String>) -> Option<Seq<char>> {
    match o {
        Some(s) => Some(s@),
        None => None,
    }
}

/// The state of a user that no event has touched.
pub open spec fn default_user() -> UserView {
    UserView {
        pseudo: Seq::empty(),
        password_hash: None,
        password_change: UtcDateTime { secs: 0, nanos: 0 },
        created_at: UtcDateTime { secs: 0, nanos: 0 },
        last_login: None,
        role: None,
        accounts: Map::empty(),
    }
}

/// The state after one event.
pub open spec fn user_after(s: UserView, e: UserEvent) -> UserView {
    match e {
        UserEvent::Public(PubUserEvent::UserCreated { pseudo }) => UserView { pseudo: pseudo@, ..s },
        UserEvent::Private(p) => match p {
            PrvUserEvent::Created { date } => UserView { created_at: date, ..s },
            PrvUserEvent::PasswordChanged { password_hash, date } => UserView {
                password_hash: Some(password_hash@),
                password_change: date,
                ..s
            },
            PrvUserEvent::LoggedIn(date) => UserView { last_login: Some(date), ..s },
            PrvUserEvent::ChangeRole(role) => UserView { role: role, ..s },
            PrvUserEvent::AccountAdded { application, account, label } => UserView {
                accounts: map_after_add(s.accounts, application@, account@, label@),
                ..s
            },
            PrvUserEvent::AccountRemoved { application, account } => UserView {
                accounts: map_after_remove(s.accounts, application@, account@),
                ..s
            },
        },
    }
}

/// The state after a sequence of events, played in order.
pub open spec fn user_after_all(s: UserView, evs: Seq<UserEvent>) -> UserView
    decreases evs.len(),
{
    if evs.len() == 0 {
        s
    } else {
        user_after(user_after_all(s, evs.drop_last()), evs.last())
    }
}

/// What a command decides on a state at the instant `now`: the events it
/// produces, or why it is refused.
pub open spec fn user_decision(s: UserView, c: UserCommand, now: UtcDateTime, r: Result<Seq<UserEvent>, UserError>) -> bool {
    match c {
        UserCommand::Create { pseudo, password_hash } => if s != default_user() {
            r == Err::<Seq<UserEvent>, UserError>(UserError::AlreadyExists)
        } else {
            r matches Ok(evs) && evs.len() == 3
                && (evs[0] matches UserEvent::Public(PubUserEvent::UserCreated { pseudo: p }) && p@ == pseudo@)
                && (evs[1] matches UserEvent::Private(PrvUserEvent::Created { date }) && date == now)
                && (evs[2] matches UserEvent::Private(PrvUserEvent::PasswordChanged { password_hash: h, date }) && h@ == password_hash@ && date == now)
        },
        UserCommand::ChangePassword { password_hash } => r matches Ok(evs) && evs.len() == 1
            && (evs[0] matches UserEvent::Private(PrvUserEvent::PasswordChanged { password_hash: h, date }) && h@ == password_hash@ && date == now),
        UserCommand::Login => r matches Ok(evs) && evs.len() == 1
            && (evs[0] matches UserEvent::Private(PrvUserEvent::LoggedIn(date)) && date == now),
        UserCommand::ChangeRole(role) => if role == s.role {
            r == Err::<Seq<UserEvent>, UserError>(UserError::SameRole)
        } else {
            r matches Ok(evs) && evs.len() == 1
                && (evs[0] matches UserEvent::Private(PrvUserEvent::ChangeRole(x)) && x == role)
        },
        UserCommand::AddAccount { application, account, label } => if link_taken(s.accounts, application@, account@, label@) {
            r == Err::<Seq<UserEvent>, UserError>(UserError::AccountAlreadyLinked)
        } else {
            r matches Ok(evs) && evs.len() == 1
                && (evs[0] matches UserEvent::Private(PrvUserEvent::AccountAdded { application: a, account: b, label: l })
                    && a@ == application@ && b@ == account@ && l@ == label@)
        },
        UserCommand::RemoveAccount { application, account } => if !account_linked(s.accounts, application@, account@) {
            r == Err::<Seq<UserEvent>, UserError>(UserError::AccountAlreadyRemoved)
        } else {
            r matches Ok(evs) && evs.len() == 1
                && (evs[0] matches UserEvent::Private(PrvUserEvent::AccountRemoved { application: a, account: b })
                    && a@ == application@ && b@ == account@)
        },
    }
}

/// The view of a command outcome.
pub open spec fn outcome_view<E, F>(r: Result<Vec<E>, F>) -> Result<Seq<E>, F> {
    match r {
        Ok(v) => Ok(v@),
        Err(e) => Err(e),
    }
}

impl View for UserState {
    type V = UserView;

    closed spec fn view(&self) -> UserView {
        UserView {
            pseudo: self.pseudo@,
            password_hash: opt_view(self.password_hash),
            password_change: self.password_change,
            created_at: self.created_at,
            last_login: self.last_login,
            role: self.role,
            accounts: self.accounts@,
        }
    }
}

impl UserState {
    /// The internal invariant of the state.
    pub closed spec fn wf(&self) -> bool {
        self.accounts.wf()
    }

    /// The state of a user that no event has touched.
    pub fn default() -> (r: UserState)
        ensures
            r.wf(),
            r@ == default_user(),
    {
        let r = UserState {
            pseudo: String::new(),
            password_hash: None,
            password_change: UtcDateTime::epoch(),
            created_at: UtcDateTime::epoch(),
            last_login: None,
            role: None,
            accounts: AccountLinks::new(),
        };
        assert(r@.pseudo =~= Seq::<char>::empty());
        r
    }

    /// A state from its parts; the accounts are linked entry by entry, in order.
    pub fn from_parts(
        pseudo: String,
        password_hash: Option<String>,
        password_change: UtcDateTime,
        created_at: UtcDateTime,
        last_login: Option<UtcDateTime>,
        role: Option<UserRole>,
        accounts: &Vec<(ModelKey, Vec<(ModelKey, String)>)>,
    ) -> (r: UserState)
        ensures
            r.wf(),
            r@ == (UserView {
                pseudo: pseudo@,
                password_hash: opt_view(password_hash),
                password_change,
                created_at,
                last_login,
                role,
                accounts: add_entries(Map::empty(), entries_view(accounts@)),
            }),
    {
        let mut links = AccountLinks::new();
        links.add_all(accounts);
        UserState { pseudo, password_hash, password_change, created_at, last_login, role, accounts: links }
    }

    /// Every application with the accounts the user holds in it.
    pub fn account_entries(&self) -> (r: Vec<(ModelKey, Vec<(ModelKey, String)>)>)
        requires
            self.wf(),
        ensures
            keys_distinct(r@),
            entries_map(r@) == self@.accounts,
    {
        self.accounts.entries()
    }

    /// Whether no event has touched the state.
    pub fn is_default(&self) -> (r: bool)
        requires
            self.wf(),
        ensures
            r == (self@ == default_user()),
    {
        let r = self.pseudo.as_str().unicode_len() == 0 && self.password_hash.is_none()
            && self.password_change == UtcDateTime::epoch() && self.created_at == UtcDateTime::epoch()
            && self.last_login.is_none() && self.role.is_none() && self.accounts.is_empty();
        proof {
            if r {
                assert(self@.pseudo =~= Seq::<char>::empty());
                assert(self@.accounts =~= Map::<KeyView, Seq<LinkView>>::empty());
            }
        }
        r
    }

    fn play_private_event(&mut self, event: &PrvUserEvent)
        requires
            old(self).wf(),
        ensures
            final(self).wf(),
            final(self)@ == user_after(old(self)@, UserEvent::Private(*event)),
    {
        match event {
            PrvUserEvent::Created { date } => {
                self.created_at = *date;
            },
            PrvUserEvent::PasswordChanged { password_hash, date } => {
                self.password_hash = Some(password_hash.clone());
                self.password_change = *date;
            },
            PrvUserEvent::LoggedIn(date) => {
                self.last_login = Some(*date);
            },
            PrvUserEvent::ChangeRole(role) => {
                self.role = *role;
            },
            PrvUserEvent::AccountAdded { application, account, label } => {
                self.accounts.add(application, account, label);
            },
            PrvUserEvent::AccountRemoved { application, account } => {
                self.accounts.remove(application, account);
            },
        }
    }

    fn play_public_event(&mut self, event: &PubUserEvent)
        requires
            old(self).wf(),
        ensures
            final(self).wf(),
            final(self)@ == user_after(old(self)@, UserEvent::Public(*event)),
    {
        match event {
            PubUserEvent::UserCreated { pseudo } => {
                self.pseudo = pseudo.clone();
            },
        }
    }

    /// Plays one event on the state.
    pub fn play_event(&mut self, event: &UserEvent)
        requires
            old(self).wf(),
        ensures
            final(self).wf(),
            final(self)@ == user_after(old(self)@, *event),
    {
        match event {
            UserEvent::Private(private) => self.play_private_event(private),
            UserEvent::Public(public) => self.play_public_event(public),
        }
    }

    /// Plays events in order.
    pub fn play_events(&mut self, events: &Vec<UserEvent>)
        requires
            old(self).wf(),
        ensures
            final(self).wf(),
            final(self)@ == user_after_all(old(self)@, events@),
    {
        let ghost s0 = self@;
        let mut i: usize = 0;
        while i < events.len()
            invariant
                i <= events@.len(),
                self.wf(),
                self@ == user_after_all(s0, events@.take(i as int)),
            decreases events.len() - i,
        {
            self.play_event(&events[i]);
            assert(events@.take(i + 1).drop_last() =~= events@.take(i as int));
            i = i + 1;
        }
        assert(events@.take(events.len() as int) =~= events@);
    }

    /// What a command produces on this state at the instant `now`.
    pub fn try_command_at(&self, command: UserCommand, now: UtcDateTime) -> (r: Result<Vec<UserEvent>, UserError>)
        requires
            self.wf(),
        ensures
            user_decision(self@, command, now, outcome_view(r)),
    {
        match command {
            UserCommand::Create { pseudo, password_hash } => {
                if !self.is_default() {
                    return Err(UserError::AlreadyExists);
                }
                let mut v: Vec<UserEvent> = Vec::new();
                v.push(UserEvent::Public(PubUserEvent::UserCreated { pseudo }));
                v.push(UserEvent::Private(PrvUserEvent::Created { date: now }));
                v.push(UserEvent::Private(PrvUserEvent::PasswordChanged { date: now, password_hash }));
                Ok(v)
            },
            UserCommand::ChangePassword { password_hash } => {
                let mut v: Vec<UserEvent> = Vec::new();
                v.push(UserEvent::Private(PrvUserEvent::PasswordChanged { date: now, password_hash }));
                Ok(v)
            },
            UserCommand::Login => {
                let mut v: Vec<UserEvent> = Vec::new();
                v.push(UserEvent::Private(PrvUserEvent::LoggedIn(now)));
                Ok(v)
            },
            UserCommand::ChangeRole(role) => {
                if role == self.role {
                    return Err(UserError::SameRole);
                }
                let mut v: Vec<UserEvent> = Vec::new();
                v.push(UserEvent::Private(PrvUserEvent::ChangeRole(role)));
                Ok(v)
            },
            UserCommand::AddAccount { application, account, label } => {
                if self.accounts.is_taken(&application, &account, &label) {
                    return Err(UserError::AccountAlreadyLinked);
                }
                let mut v: Vec<UserEvent> = Vec::new();
                v.push(UserEvent::Private(PrvUserEvent::AccountAdded { application, account, label }));
                Ok(v)
            },
            UserCommand::RemoveAccount { application, account } => {
                if !self.accounts.has_account(&application, &account) {
                    return Err(UserError::AccountAlreadyRemoved);
                }
                let mut v: Vec<UserEvent> = Vec::new();
                v.push(UserEvent::Private(PrvUserEvent::AccountRemoved { application, account }));
                Ok(v)
            },
        }
    }

    /// What a command produces on this state now (the instant is read from the
    /// clock once, and given to `try_command_at`).
    pub fn try_command(&self, command: UserCommand) -> (r: Result<Vec<UserEvent>, UserError>)
        requires
            self.wf(),
        ensures
            exists|now: UtcDateTime| is_clock_reading(now) && user_decision(self@, command, now, outcome_view(r)),
    {
        let now = utc_now();
        self.try_command_at(command, now)
    }

    /// The pseudo of the user.
    pub fn pseudo(&self) -> (r: &str)
        ensures
            r@ == self@.pseudo,
    {
        self.pseudo.as_str()
    }

    /// The hash of the user's password, if one was set.
    pub fn password_hash(&self) -> (r: &Option<String>)
        ensures
            opt_view(*r) == self@.password_hash,
    {
        &self.password_hash
    }

    /// When the password last changed.
    pub fn password_change(&self) -> (r: UtcDateTime)
        ensures
            r == self@.password_change,
    {
        self.password_change
    }

    /// When the user was created.
    pub fn created_at(&self) -> (r: UtcDateTime)
        ensures
            r == self@.created_at,
    {
        self.created_at
    }

    /// When the user last logged in, if ever.
    pub fn last_login(&self) -> (r: Option<UtcDateTime>)
        ensures
            r == self@.last_login,
    {
        self.last_login
    }

    /// Whether the user holds the administrator role.
    pub fn is_admin(&self) -> (r: bool)
        ensures
            r == (self@.role == Some(UserRole::Admin)),
    {
        self.role == Some(UserRole::Admin)
    }

    /// The role of the user.
    pub fn role(&self) -> (r: Option<UserRole>)
        ensures
            r == self@.role,
    {
        self.role
    }

    /// The accounts the user holds in `application`, in the order they were
    /// linked (empty when there are none).
    pub fn accounts(&self, application: &ModelKey) -> (r: Vec<(ModelKey, String)>)
        requires
            self.wf(),
        ensures
            links_view(r@) == links_of(self@.accounts, application@),
    {
        self.accounts.get(application)
    }

    /// Whether the user holds `account` in `application`.
    pub fn has_account(&self, application: &ModelKey, account: &ModelKey) -> (r: bool)
        requires
            self.wf(),
        ensures
            r == account_linked(self@.accounts, application@, account@),
    {
        self.accounts.has_account(application, account)
    }
}

} // verus!
