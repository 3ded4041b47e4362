//! What the event consumers decide: the list of applications kept in the
//! cache, and the user command that links a newly created account.

use vstd::prelude::*;
use crate::account::AccountEvent;
use crate::application::{ApplicationEvent, ApplicationList, PrivateApplicationEvent};
use crate::events::PubAccountEvent;
use crate::model_key::{parse_key, ModelKey, ModelKeyError};
use crate::url::HostKind;
use crate::user::UserCommand;

verus! {

/// The view of an entry of the list of applications: id, name, host.
pub open spec fn entry_view(e: ApplicationList) -> (Seq<char>, Seq<char>, (Seq<char>, HostKind)) {
    (e.id@, e.name@, e.host@)
}

/// The view of the list of applications.
pub open spec fn list_view(l: Seq<ApplicationList>) -> Seq<(Seq<char>, Seq<char>, (Seq<char>, HostKind))> {
    l.map_values(|e: ApplicationList| entry_view(e))
}

/// Records an application event (stored with id `event_id`) in the list of
/// applications: a creation appends the application; a key change leaves the
/// list alone. Returns whether the list changed.
pub fn record_application(list: &mut Vec<ApplicationList>, event_id: String, event: ApplicationEvent) -> (r: bool)
    ensures
        match event {
            ApplicationEvent::Private(PrivateApplicationEvent::Created { name, host, .. }) => r && list_view(final(list)@)
                == list_view(old(list)@).push((event_id@, name@, host@)),
            ApplicationEvent::Private(PrivateApplicationEvent::KeyChanged { .. }) => !r && final(list)@ == old(list)@,
        },
{
    match event {
        ApplicationEvent::Private(PrivateApplicationEvent::Created { name, host, key: _ }) => {
            let ghost before = list@;
            let entry = ApplicationList { id: event_id, name, host };
            list.push(entry);
            assert(list_view(list@) =~= list_view(before).push(entry_view(entry)));
            true
        },
        ApplicationEvent::Private(PrivateApplicationEvent::KeyChanged { .. }) => false,
    }
}

/// The user command that a published account creation calls for: the user
/// (first) must link the account, whose key is the event's stream id, under
/// the application with the account's name. Other events call for nothing.
pub fn account_created_command(stream_id: &str, event: &AccountEvent) -> (r: Result<Option<(ModelKey, UserCommand)>, ModelKeyError>)
    ensures
        match *event {
            AccountEvent::Public(PubAccountEvent::AccountCreated { user_id, app_id, name }) => match parse_key(stream_id@) {
                None => r == Err::<Option<(ModelKey, UserCommand)>, ModelKeyError>(ModelKeyError::UuidError),
                Some(k) => r matches Ok(Some((u, c))) && u@ == user_id@ && (c matches UserCommand::AddAccount {
                    application: a,
                    account: b,
                    label: l,
                } && a@ == app_id@ && b@ == k && l@ == name@),
            },
            _ => r matches Ok(None),
        },
{
    match event {
        AccountEvent::Public(PubAccountEvent::AccountCreated { app_id, user_id, name }) => {
            let account = match ModelKey::try_from_str(stream_id) {
                Ok(k) => k,
                Err(e) => {
                    return Err(e);
                },
            };
            Ok(Some((user_id.duplicate(), UserCommand::AddAccount {
                application: app_id.duplicate(),
                account,
                label: name.clone(),
            })))
        },
        _ => Ok(None),
    }
}

} // verus!
