//! Laws of the account and application models.

use vstd::prelude::*;
use crate::account::{
    account_after_all, account_decision, one_time_text, AccountCommand, AccountError, AccountEvent,
    AccountView,
};
use crate::application::{
    application_after_all, application_decision, ApplicationCommand, ApplicationEvent, ApplicationView,
};
use crate::links::KeyView;
use crate::model_key::{hex_digit, key_text, uuid_hex, uuid_hyphenated, ModelKey};
use crate::text::{before_first, lemma_first_index_of_join};
use crate::url::Url;

verus! {

/// An accepted suspension suspends the account, and a second one is refused.
pub proof fn law_suspend(s: AccountView, token: Seq<char>, evs: Seq<AccountEvent>)
    requires
        account_decision(s, AccountCommand::Suspend, token, Ok(evs)),
    ensures
        !s.suspended,
        account_after_all(s, evs).suspended,
        account_decision(account_after_all(s, evs), AccountCommand::Suspend, token, Err(AccountError::AlreadySuspended)),
{
    reveal_with_fuel(account_after_all, 2);
    assert(evs.drop_last() =~= Seq::<AccountEvent>::empty());
}

/// An accepted resumption resumes the account, and a second one is refused.
pub proof fn law_resume(s: AccountView, token: Seq<char>, evs: Seq<AccountEvent>)
    requires
        account_decision(s, AccountCommand::Resume, token, Ok(evs)),
    ensures
        s.suspended,
        !account_after_all(s, evs).suspended,
        account_decision(account_after_all(s, evs), AccountCommand::Resume, token, Err(AccountError::NotSuspended)),
{
    reveal_with_fuel(account_after_all, 2);
    assert(evs.drop_last() =~= Seq::<AccountEvent>::empty());
}

/// Resuming undoes a suspension: the account is back as it was.
pub proof fn law_resume_undoes_suspend(
    s: AccountView,
    token: Seq<char>,
    suspend_evs: Seq<AccountEvent>,
    resume_evs: Seq<AccountEvent>,
)
    requires
        account_decision(s, AccountCommand::Suspend, token, Ok(suspend_evs)),
        account_decision(account_after_all(s, suspend_evs), AccountCommand::Resume, token, Ok(resume_evs)),
    ensures
        account_after_all(account_after_all(s, suspend_evs), resume_evs) == s,
{
    reveal_with_fuel(account_after_all, 2);
    assert(suspend_evs.drop_last() =~= Seq::<AccountEvent>::empty());
    assert(resume_evs.drop_last() =~= Seq::<AccountEvent>::empty());
}

/// Creating an account records its user, application and name, leaves it
/// suspended, and gives it the drawn one-time code.
pub proof fn law_create_account(
    s: AccountView,
    user_id: ModelKey,
    app_id: ModelKey,
    name: String,
    token: Seq<char>,
    evs: Seq<AccountEvent>,
)
    requires
        account_decision(s, AccountCommand::Create { user_id, app_id, name }, token, Ok(evs)),
    ensures
        account_after_all(s, evs).user_id == user_id@,
        account_after_all(s, evs).app_id == app_id@,
        account_after_all(s, evs).name == name@,
        account_after_all(s, evs).suspended,
        account_after_all(s, evs).one_time_token == Some(token),
{
    reveal_with_fuel(account_after_all, 3);
    assert(evs.drop_last().drop_last() =~= Seq::<AccountEvent>::empty());
}

/// Validating an account resumes it and spends its one-time code, keeping its
/// user, application and name.
pub proof fn law_validate_account(s: AccountView, token: Seq<char>, evs: Seq<AccountEvent>)
    requires
        account_decision(s, AccountCommand::Validate, token, Ok(evs)),
    ensures
        !account_after_all(s, evs).suspended,
        account_after_all(s, evs).one_time_token is None,
        account_after_all(s, evs).user_id == s.user_id,
        account_after_all(s, evs).app_id == s.app_id,
        account_after_all(s, evs).name == s.name,
{
    reveal_with_fuel(account_after_all, 4);
    assert(evs.drop_last().drop_last().drop_last() =~= Seq::<AccountEvent>::empty());
}

/// A new one-time code replaces the one the account held.
pub proof fn law_new_one_time_token(s: AccountView, token: Seq<char>, evs: Seq<AccountEvent>)
    requires
        account_decision(s, AccountCommand::NewOneTimeToken, token, Ok(evs)),
    ensures
        account_after_all(s, evs) == (AccountView { one_time_token: Some(token), ..s }),
{
    reveal_with_fuel(account_after_all, 2);
    assert(evs.drop_last() =~= Seq::<AccountEvent>::empty());
}

/// The text of a UUID holds no bar.
proof fn lemma_uuid_no_bar(id: u128)
    ensures
        !uuid_hyphenated(id).contains('|'),
{
    let h = uuid_hex(id);
    assert forall|i: int| 0 <= i < h.len() implies #[trigger] h[i] != '|' by {
        let n = (id as int / vstd::arithmetic::power2::pow2((4 * (31 - i)) as nat) as int) % 16;
        assert(0 <= n < 16);
        assert(h[i] == hex_digit(n));
    }
    let u = uuid_hyphenated(id);
    if u.contains('|') {
        let j = choose|j: int| 0 <= j < u.len() && u[j] == '|';
        if j < 8 {
            assert(u[j] == h[j]);
        } else if j == 8 || j == 13 || j == 18 || j == 23 {
        } else if j < 13 {
            assert(u[j] == h[j - 1]);
        } else if j < 18 {
            assert(u[j] == h[j - 2]);
        } else if j < 23 {
            assert(u[j] == h[j - 3]);
        } else {
            assert(u[j] == h[j - 4]);
        }
    }
}

/// The one-time token an application receives starts with the account key:
/// what stands before its first bar is the key's text, whatever the code,
/// when the key's stream name holds no bar.
pub proof fn law_one_time_token_names_key(key: KeyView, code: Seq<char>)
    requires
        !key.0.contains('|'),
    ensures
        before_first(one_time_text(key, code), '|') == key_text(key),
{
    lemma_uuid_no_bar(key.1);
    let t = key_text(key);
    assert(!t.contains('|')) by {
        if t.contains('|') {
            let j = choose|j: int| 0 <= j < t.len() && t[j] == '|';
            if j < key.0.len() {
                assert(t[j] == key.0[j]);
            } else if j > key.0.len() {
                assert(t[j] == uuid_hyphenated(key.1)[j - key.0.len() - 1]);
            }
        }
    }
    lemma_first_index_of_join(t, '|', code);
    assert(one_time_text(key, code) =~= t + seq!['|'] + code);
}

/// Creating an application records its name, host and drawn key.
pub proof fn law_create_application(
    s: ApplicationView,
    name: String,
    host: Url,
    key: Seq<char>,
    evs: Seq<ApplicationEvent>,
)
    requires
        application_decision(ApplicationCommand::Create { name, host }, key, Ok(evs)),
    ensures
        application_after_all(s, evs) == (ApplicationView { name: name@, host: host@, key: key }),
{
    reveal_with_fuel(application_after_all, 2);
    assert(evs.drop_last() =~= Seq::<ApplicationEvent>::empty());
}

/// Regenerating the key replaces the key only.
pub proof fn law_regenerate_key(s: ApplicationView, key: Seq<char>, evs: Seq<ApplicationEvent>)
    requires
        application_decision(ApplicationCommand::RegenerateKey, key, Ok(evs)),
    ensures
        application_after_all(s, evs) == (ApplicationView { key: key, ..s }),
{
    reveal_with_fuel(application_after_all, 2);
    assert(evs.drop_last() =~= Seq::<ApplicationEvent>::empty());
}

} // verus!
