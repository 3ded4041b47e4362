//! The account model: an account a user holds in an application, suspended
//! until validated, with a one-time code that the application trades for a
//! token.

use vstd::prelude::*;
use crate::events::PubAccountEvent;
use crate::links::KeyView;
use crate::model_key::{key_text, ModelKey};
use crate::random::{is_token, random_token};
use crate::user::{opt_view, outcome_view};

verus! {

/// The length of a one-time code.
pub const ONE_TIME_TOKEN_LEN: usize = 20;

/// Commands on an account.
#[derive(Debug)]
pub enum AccountCommand {
    Create { user_id: ModelKey, app_id: ModelKey, name: String },
    Validate,
    Suspend,
    Resume,
    NewOneTimeToken,
}

/// Why an account command, or a read of its one-time code, is refused.
#[derive(Clone, Copy, Debug, PartialEq, Eq, Structural)]
pub enum AccountError {
    AlreadySuspended,
    NotSuspended,
    NoOneTimeCode,
}

/// Events private to the authentication service.
#[derive(Debug)]
pub enum PrvAccountEvent {
    Created { user_id: ModelKey, app_id: ModelKey, name: String },
    OneTimeTokenAdded { token: String },
    OneTimeTokenRemoved,
}

/// An event of the account stream.
#[derive(Debug)]
pub enum AccountEvent {
    Private(PrvAccountEvent),
    Public(PubAccountEvent),
}

/// The abstract state of an account.
pub struct AccountView {
    pub user_id: KeyView,
    pub app_id: KeyView,
    pub name: Seq<char>,
    pub suspended: bool,
    pub one_time_token: Option<Seq<char>>,
}

/// The state of an account as its events build it.
#[derive(Debug)]
pub struct AccountState {
    user_id: ModelKey,
    app_id: ModelKey,
    name: String,
    suspended: bool,
    one_time_token: Option<String>,
}

impl View for AccountState {
    type V = AccountView;

    closed spec fn view(&self) -> AccountView {
        AccountView {
            user_id: self.user_id@,
            app_id: self.app_id@,
            name: self.name@,
            suspended: self.suspended,
            one_time_token: opt_view(self.one_time_token),
        }
    }
}

/// The state of an account that no event has touched.
pub open spec fn default_account() -> AccountView {
    AccountView {
        user_id: (Seq::empty(), 0u128),
        app_id: (Seq::empty(), 0u128),
        name: Seq::empty(),
        suspended: false,
        one_time_token: None,
    }
}

/// The state after one event.
pub open spec fn account_after(s: AccountView, e: AccountEvent) -> AccountView {
    match e {
        AccountEvent::Private(PrvAccountEvent::Created { user_id, app_id, name }) => AccountView {
            user_id: user_id@,
            app_id: app_id@,
            name: name@,
            suspended: true,
            ..s
        },
        AccountEvent::Private(PrvAccountEvent::OneTimeTokenAdded { token }) => AccountView {
            one_time_token: Some(token@),
            ..s
        },
        AccountEvent::Private(PrvAccountEvent::OneTimeTokenRemoved) => AccountView { one_time_token: None, ..s },
        AccountEvent::Public(PubAccountEvent::AccountCreated { .. }) => s,
        AccountEvent::Public(PubAccountEvent::AccountSuspended) => AccountView { suspended: true, ..s },
        AccountEvent::Public(PubAccountEvent::AccountResumed) => AccountView { suspended: false, ..s },
    }
}

/// The state after a sequence of events, played in order.
pub open spec fn account_after_all(s: AccountView, evs: Seq<AccountEvent>) -> AccountView
    decreases evs.len(),
{
    if evs.len() == 0 {
        s
    } else {
        account_after(account_after_all(s, evs.drop_last()), evs.last())
    }
}

/// What a command decides on a state, `token` being the one-time code drawn
/// for the commands that need one.
pub open spec fn account_decision(
    s: AccountView,
    c: AccountCommand,
    token: Seq<char>,
    r: Result<Seq<AccountEvent>, AccountError>,
) -> bool {
    match c {
        AccountCommand::Create { user_id, app_id, name } => r matches Ok(evs) && evs.len() == 2
            && (evs[0] matches AccountEvent::Private(PrvAccountEvent::Created { user_id: u, app_id: a, name: n })
                && u@ == user_id@ && a@ == app_id@ && n@ == name@)
            && (evs[1] matches AccountEvent::Private(PrvAccountEvent::OneTimeTokenAdded { token: t }) && t@ == token),
        AccountCommand::Validate => r matches Ok(evs) && evs.len() == 3
            && (evs[0] matches AccountEvent::Public(PubAccountEvent::AccountCreated { user_id: u, app_id: a, name: n })
                && u@ == s.user_id && a@ == s.app_id && n@ == s.name)
            && (evs[1] matches AccountEvent::Public(PubAccountEvent::AccountResumed))
            && (evs[2] matches AccountEvent::Private(PrvAccountEvent::OneTimeTokenRemoved)),
        AccountCommand::Suspend => if s.suspended {
            r == Err::<Seq<AccountEvent>, AccountError>(AccountError::AlreadySuspended)
        } else {
            r matches Ok(evs) && evs.len() == 1 && (evs[0] matches AccountEvent::Public(PubAccountEvent::AccountSuspended))
        },
        AccountCommand::Resume => if s.suspended {
            r matches Ok(evs) && evs.len() == 1 && (evs[0] matches AccountEvent::Public(PubAccountEvent::AccountResumed))
        } else {
            r == Err::<Seq<AccountEvent>, AccountError>(AccountError::NotSuspended)
        },
        AccountCommand::NewOneTimeToken => r matches Ok(evs) && evs.len() == 1
            && (evs[0] matches AccountEvent::Private(PrvAccountEvent::OneTimeTokenAdded { token: t }) && t@ == token),
    }
}

/// The text an application receives as its one-time token: the account key,
/// a bar and the one-time code.
pub open spec fn one_time_text(key: KeyView, code: Seq<char>) -> Seq<char> {
    key_text(key) + seq!['|'] + code
}

impl AccountState {
    /// The state of an account that no event has touched.
    pub fn default() -> (r: AccountState)
        ensures
            r@ == default_account(),
    {
        let r = AccountState {
            user_id: ModelKey::empty(),
            app_id: ModelKey::empty(),
            name: String::new(),
            suspended: false,
            one_time_token: None,
        };
        assert(r@.name =~= Seq::<char>::empty());
        r
    }

    /// A state from its parts.
    pub fn from_parts(
        user_id: ModelKey,
        app_id: ModelKey,
        name: String,
        suspended: bool,
        one_time_token: Option<String>,
    ) -> (r: AccountState)
        ensures
            r@ == (AccountView {
                user_id: user_id@,
                app_id: app_id@,
                name: name@,
                suspended,
                one_time_token: opt_view(one_time_token),
            }),
    {
        AccountState { user_id, app_id, name, suspended, one_time_token }
    }

    /// The one-time code the account holds, if any.
    pub fn one_time_code(&self) -> (r: &Option<String>)
        ensures
            opt_view(*r) == self@.one_time_token,
    {
        &self.one_time_token
    }

    fn play_private_event(&mut self, event: &PrvAccountEvent)
        ensures
            final(self)@ == account_after(old(self)@, AccountEvent::Private(*event)),
    {
        match event {
            PrvAccountEvent::Created { app_id, user_id, name } => {
                self.app_id = app_id.duplicate();
                self.user_id = user_id.duplicate();
                self.name = name.clone();
                self.suspended = true;
            },
            PrvAccountEvent::OneTimeTokenAdded { token } => {
                self.one_time_token = Some(token.clone());
            },
            PrvAccountEvent::OneTimeTokenRemoved => {
                self.one_time_token = None;
            },
        }
    }

    fn play_public_event(&mut self, event: &PubAccountEvent)
        ensures
            final(self)@ == account_after(old(self)@, AccountEvent::Public(*event)),
    {
        match event {
            PubAccountEvent::AccountCreated { .. } => {},
            PubAccountEvent::AccountSuspended => {
                self.suspended = true;
            },
            PubAccountEvent::AccountResumed => {
                self.suspended = false;
            },
        }
    }

    /// Plays one event on the state.
    pub fn play_event(&mut self, event: &AccountEvent)
        ensures
            final(self)@ == account_after(old(self)@, *event),
    {
        match event {
            AccountEvent::Private(private) => self.play_private_event(private),
            AccountEvent::Public(public) => self.play_public_event(public),
        }
    }

    /// Plays events in order.
    pub fn play_events(&mut self, events: &Vec<AccountEvent>)
        ensures
            final(self)@ == account_after_all(old(self)@, events@),
    {
        let ghost s0 = self@;
        let mut i: usize = 0;
        while i < events.len()
            invariant
                i <= events@.len(),
                self@ == account_after_all(s0, events@.take(i as int)),
            decreases events.len() - i,
        {
            self.play_event(&events[i]);
            assert(events@.take(i + 1).drop_last() =~= events@.take(i as int));
            i = i + 1;
        }
        assert(events@.take(events.len() as int) =~= events@);
    }

    /// What a command produces on this state, `token` being the one-time code
    /// that `Create` and `NewOneTimeToken` hand out.
    pub fn try_command_with_token(&self, command: AccountCommand, token: String) -> (r: Result<Vec<AccountEvent>, AccountError>)
        ensures
            account_decision(self@, command, token@, outcome_view(r)),
    {
        match command {
            AccountCommand::Create { name, app_id, user_id } => {
                let mut v: Vec<AccountEvent> = Vec::new();
                v.push(AccountEvent::Private(PrvAccountEvent::Created { user_id, app_id, name }));
                v.push(AccountEvent::Private(PrvAccountEvent::OneTimeTokenAdded { token }));
                Ok(v)
            },
            AccountCommand::Validate => {
                let mut v: Vec<AccountEvent> = Vec::new();
                v.push(AccountEvent::Public(PubAccountEvent::AccountCreated {
                    user_id: self.user_id.duplicate(),
                    app_id: self.app_id.duplicate(),
                    name: self.name.clone(),
                }));
                v.push(AccountEvent::Public(PubAccountEvent::AccountResumed));
                v.push(AccountEvent::Private(PrvAccountEvent::OneTimeTokenRemoved));
                Ok(v)
            },
            AccountCommand::Suspend => {
                if self.suspended {
                    Err(AccountError::AlreadySuspended)
                } else {
                    let mut v: Vec<AccountEvent> = Vec::new();
                    v.push(AccountEvent::Public(PubAccountEvent::AccountSuspended));
                    Ok(v)
                }
            },
            AccountCommand::Resume => {
                if self.suspended {
                    let mut v: Vec<AccountEvent> = Vec::new();
                    v.push(AccountEvent::Public(PubAccountEvent::AccountResumed));
                    Ok(v)
                } else {
                    Err(AccountError::NotSuspended)
                }
            },
            AccountCommand::NewOneTimeToken => {
                let mut v: Vec<AccountEvent> = Vec::new();
                v.push(AccountEvent::Private(PrvAccountEvent::OneTimeTokenAdded { token }));
                Ok(v)
            },
        }
    }

    /// What a command produces on this state; `Create` and `NewOneTimeToken`
    /// draw a fresh random one-time code of twenty letters and digits.
    pub fn try_command(&self, command: AccountCommand) -> (r: Result<Vec<AccountEvent>, AccountError>)
        ensures
            exists|token: Seq<char>|
                is_token(token, ONE_TIME_TOKEN_LEN as nat) && account_decision(self@, command, token, outcome_view(r)),
    {
        let draws = match &command {
            AccountCommand::Create { .. } => true,
            AccountCommand::NewOneTimeToken => true,
            _ => false,
        };
        let ghost c = command;
        let token = if draws {
            random_token(ONE_TIME_TOKEN_LEN)
        } else {
            String::new()
        };
        let ghost t = token@;
        let r = self.try_command_with_token(command, token);
        proof {
            if !draws {
                let w = Seq::new(ONE_TIME_TOKEN_LEN as nat, |i: int| 'A');
                assert(is_token(w, ONE_TIME_TOKEN_LEN as nat));
                assert(account_decision(self@, c, w, outcome_view(r)));
            } else {
                assert(is_token(t, ONE_TIME_TOKEN_LEN as nat));
            }
        }
        r
    }

    /// The one-time token the application trades: `<key>|<code>`, if the
    /// account holds a code.
    pub fn one_time_token(&self, key: &ModelKey) -> (r: Result<String, AccountError>)
        ensures
            match self@.one_time_token {
                None => r == Err::<String, AccountError>(AccountError::NoOneTimeCode),
                Some(code) => r matches Ok(t) && t@ == one_time_text(key@, code),
            },
    {
        match &self.one_time_token {
            None => Err(AccountError::NoOneTimeCode),
            Some(otk) => {
                proof {
                    reveal_strlit("|");
                }
                let mut out = key.to_string();
                out.append("|");
                out.append(otk.as_str());
                Ok(out)
            },
        }
    }

    /// The user holding the account.
    pub fn user_id(&self) -> (r: &ModelKey)
        ensures
            r@ == self@.user_id,
    {
        &self.user_id
    }

    /// The application the account belongs to.
    pub fn app_id(&self) -> (r: &ModelKey)
        ensures
            r@ == self@.app_id,
    {
        &self.app_id
    }

    /// The name of the account.
    pub fn name(&self) -> (r: &str)
        ensures
            r@ == self@.name,
    {
        self.name.as_str()
    }

    /// Whether the account is suspended.
    pub fn is_suspended(&self) -> (r: bool)
        ensures
            r == self@.suspended,
    {
        self.suspended
    }
}

} // verus!
