//! The application model: an application that delegates its login to the
//! authentication service, with the secret key it signs tokens with.

use vstd::prelude::*;
use crate::random::{is_token, random_token};
use crate::url::{HostKind, Url};
use crate::user::outcome_view;

verus! {

/// The length of an application key.
pub const APPLICATION_KEY_LEN: usize = 40;

/// Commands on an application.
#[derive(Debug)]
pub enum ApplicationCommand {
    Create { name: String, host: Url },
    RegenerateKey,
}

/// Events of an application.
#[derive(Debug)]
pub enum PrivateApplicationEvent {
    Created { name: String, host: Url, key: String },
    KeyChanged { key: String },
}

/// An event of the application stream.
#[derive(Debug)]
pub enum ApplicationEvent {
    Private(PrivateApplicationEvent),
}

/// Why an application command is refused. Application commands are never
/// refused: no function produces this error.
#[derive(Clone, Copy, Debug, PartialEq, Eq, Structural)]
pub enum AuthApplicationError {
    Refused,
}

/// An entry of the list of applications that the administration shows.
#[derive(Debug)]
pub struct ApplicationList {
    pub id: String,
    pub name: String,
    pub host: Url,
}

/// The abstract state of an application.
pub struct ApplicationView {
    pub name: Seq<char>,
    pub host: (Seq<char>, HostKind),
    pub key: Seq<char>,
}

/// The state of an application as its events build it.
#[derive(Debug)]
pub struct ApplicationState {
    name: String,
    host: Url,
    key: String,
}

impl View for ApplicationState {
    type V = ApplicationView;

    closed spec fn view(&self) -> ApplicationView {
        ApplicationView { name: self.name@, host: self.host@, key: self.key@ }
    }
}

/// The host an application has before it is created.
pub open spec fn default_host() -> (Seq<char>, HostKind) {
    ("https://aedius.fr/"@, HostKind::Domain)
}

/// The state of an application that no event has touched.
pub open spec fn default_application() -> ApplicationView {
    ApplicationView { name: Seq::empty(), host: default_host(), key: Seq::empty() }
}

/// Whether the state equals the untouched one (hosts compare by serialization).
pub open spec fn is_default_application(s: ApplicationView) -> bool {
    s.name.len() == 0 && s.key.len() == 0 && s.host.0 == default_host().0
}

/// The state after one event.
pub open spec fn application_after(s: ApplicationView, e: ApplicationEvent) -> ApplicationView {
    match e {
        ApplicationEvent::Private(PrivateApplicationEvent::Created { name, host, key }) => ApplicationView {
            name: name@,
            host: host@,
            key: key@,
        },
        ApplicationEvent::Private(PrivateApplicationEvent::KeyChanged { key }) => ApplicationView { key: key@, ..s },
    }
}

/// The state after a sequence of events, played in order.
pub open spec fn application_after_all(s: ApplicationView, evs: Seq<ApplicationEvent>) -> ApplicationView
    decreases evs.len(),
{
    if evs.len() == 0 {
        s
    } else {
        application_after(application_after_all(s, evs.drop_last()), evs.last())
    }
}

/// What a command decides, `key` being the key drawn for it.
pub open spec fn application_decision(
    c: ApplicationCommand,
    key: Seq<char>,
    r: Result<Seq<ApplicationEvent>, AuthApplicationError>,
) -> bool {
    match c {
        ApplicationCommand::Create { name, host } => r matches Ok(evs) && evs.len() == 1
            && (evs[0] matches ApplicationEvent::Private(PrivateApplicationEvent::Created { name: n, host: h, key: k })
                && n@ == name@ && h@ == host@ && k@ == key),
        ApplicationCommand::RegenerateKey => r matches Ok(evs) && evs.len() == 1
            && (evs[0] matches ApplicationEvent::Private(PrivateApplicationEvent::KeyChanged { key: k }) && k@ == key),
    }
}

impl ApplicationState {
    /// The state of an application that no event has touched: no name, no key,
    /// and `https://aedius.fr` as its host.
    pub fn default() -> (r: ApplicationState)
        ensures
            r@ == default_application(),
    {
        let host = Url::parse("https://aedius.fr");
        let host = match host {
            Ok(u) => u,
            Err(_) => vstd::pervasive::unreached(),
        };
        let r = ApplicationState { name: String::new(), host, key: String::new() };
        assert(r@.name =~= Seq::<char>::empty());
        assert(r@.key =~= Seq::<char>::empty());
        r
    }

    /// A state from its parts.
    pub fn from_parts(name: String, host: Url, key: String) -> (r: ApplicationState)
        ensures
            r@ == (ApplicationView { name: name@, host: host@, key: key@ }),
    {
        ApplicationState { name, host, key }
    }

    /// Whether no event has touched the state (hosts compare by serialization).
    pub fn is_default(&self) -> (r: bool)
        ensures
            r == is_default_application(self@),
    {
        let d = ApplicationState::default();
        self.name.as_str().unicode_len() == 0 && self.key.as_str().unicode_len() == 0 && self.host.same(&d.host)
    }

    fn play_private_event(&mut self, event: &PrivateApplicationEvent)
        ensures
            final(self)@ == application_after(old(self)@, ApplicationEvent::Private(*event)),
    {
        match event {
            PrivateApplicationEvent::Created { host, key, name } => {
                self.host = host.duplicate();
                self.key = key.clone();
                self.name = name.clone();
            },
            PrivateApplicationEvent::KeyChanged { key } => {
                self.key = key.clone();
            },
        }
    }

    /// Plays one event on the state.
    pub fn play_event(&mut self, event: &ApplicationEvent)
        ensures
            final(self)@ == application_after(old(self)@, *event),
    {
        match event {
            ApplicationEvent::Private(e) => self.play_private_event(e),
        }
    }

    /// Plays events in order.
    pub fn play_events(&mut self, events: &Vec<ApplicationEvent>)
        ensures
            final(self)@ == application_after_all(old(self)@, events@),
    {
        let ghost s0 = self@;
        let mut i: usize = 0;
        while i < events.len()
            invariant
                i <= events@.len(),
                self@ == application_after_all(s0, events@.take(i as int)),
            decreases events.len() - i,
        {
            self.play_event(&events[i]);
            assert(events@.take(i + 1).drop_last() =~= events@.take(i as int));
            i = i + 1;
        }
        assert(events@.take(events.len() as int) =~= events@);
    }

    /// What a command produces, `key` being the key it hands out.
    pub fn try_command_with_key(&self, command: ApplicationCommand, key: String) -> (r: Result<Vec<ApplicationEvent>, AuthApplicationError>)
        ensures
            application_decision(command, key@, outcome_view(r)),
    {
        match command {
            ApplicationCommand::Create { name, host } => {
                let mut v: Vec<ApplicationEvent> = Vec::new();
                v.push(ApplicationEvent::Private(PrivateApplicationEvent::Created { key, name, host }));
                Ok(v)
            },
            ApplicationCommand::RegenerateKey => {
                let mut v: Vec<ApplicationEvent> = Vec::new();
                v.push(ApplicationEvent::Private(PrivateApplicationEvent::KeyChanged { key }));
                Ok(v)
            },
        }
    }

    /// What a command produces: each command draws a fresh random key of
    /// forty letters and digits.
    pub fn try_command(&self, command: ApplicationCommand) -> (r: Result<Vec<ApplicationEvent>, AuthApplicationError>)
        ensures
            exists|key: Seq<char>| is_token(key, APPLICATION_KEY_LEN as nat) && application_decision(command, key, outcome_view(r)),
    {
        let key = ApplicationState::generate_key();
        self.try_command_with_key(command, key)
    }

    /// A fresh random key of forty letters and digits.
    pub fn generate_key() -> (r: String)
        ensures
            is_token(r@, APPLICATION_KEY_LEN as nat),
    {
        random_token(APPLICATION_KEY_LEN)
    }

    /// The name of the application.
    pub fn name(&self) -> (r: &str)
        ensures
            r@ == self@.name,
    {
        self.name.as_str()
    }

    /// The host of the application.
    pub fn host(&self) -> (r: &Url)
        ensures
            r@ == self@.host,
    {
        &self.host
    }

    /// The key the application signs with.
    pub fn key(&self) -> (r: &str)
        ensures
            r@ == self@.key,
    {
        self.key.as_str()
    }
}

} // verus!
