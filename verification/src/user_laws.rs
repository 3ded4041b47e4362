//! Laws of the user model: what every event keeps, what a command's events do
//! to the state, and what one event undoes.

use vstd::prelude::*;
use crate::datetime::UtcDateTime;
use crate::links::{
    account_linked, link_conflicts, link_to, links_of, map_after_add, map_after_remove,
    without_account, lemma_without_account_push, KeyView, LinkView,
};
use crate::model_key::ModelKey;
use crate::user::{
    default_user, user_after, user_after_all, user_decision, UserCommand, UserError,
    UserEvent, UserRole, UserView,
};

verus! {

/// No application is held with an empty list of accounts.
pub open spec fn no_empty_links(m: Map<KeyView, Seq<LinkView>>) -> bool {
    forall|k: KeyView| #[trigger] m.dom().contains(k) ==> m[k].len() > 0
}

/// Within each application, no two links share an account or a label.
pub open spec fn links_unique(m: Map<KeyView, Seq<LinkView>>) -> bool {
    forall|k: KeyView, i: int, j: int|
        #![trigger m[k][i], m[k][j]]
        m.dom().contains(k) && 0 <= i < m[k].len() && 0 <= j < m[k].len() && i != j ==> m[k][i].0
            != m[k][j].0 && m[k][i].1 != m[k][j].1
}

proof fn lemma_filter_subseq(l: Seq<LinkView>, account: KeyView)
    ensures
        forall|i: int| 0 <= i < without_account(l, account).len() ==> #[trigger] without_account(l, account)[i].0 != account,
        forall|i: int| 0 <= i < without_account(l, account).len() ==> l.contains(#[trigger] without_account(l, account)[i]),
        without_account(l, account).len() <= l.len(),
    decreases l.len(),
{
    reveal(Seq::filter);
    if l.len() > 0 {
        let init = l.drop_last();
        lemma_filter_subseq(init, account);
        assert(l =~= init.push(l.last()));
        lemma_without_account_push(init, l.last(), account);
        assert forall|i: int| 0 <= i < without_account(l, account).len() implies l.contains(#[trigger] without_account(l, account)[i]) by {
            if i < without_account(init, account).len() {
                let x = without_account(init, account)[i];
                assert(init.contains(x));
                let j = choose|j: int| 0 <= j < init.len() && init[j] == x;
                assert(l[j] == x);
            } else {
                assert(l[l.len() - 1] == l.last());
            }
        }
    }
}

/// Filtering keeps the links in order: a filtered list of distinct entries
/// has distinct entries.
proof fn lemma_filter_unique(l: Seq<LinkView>, account: KeyView)
    requires
        forall|i: int, j: int| #![trigger l[i], l[j]] 0 <= i < l.len() && 0 <= j < l.len() && i != j ==> l[i].0 != l[j].0 && l[i].1 != l[j].1,
    ensures
        forall|i: int, j: int|
            #![trigger without_account(l, account)[i], without_account(l, account)[j]]
            0 <= i < without_account(l, account).len() && 0 <= j < without_account(l, account).len() && i != j
                ==> without_account(l, account)[i].0 != without_account(l, account)[j].0
                && without_account(l, account)[i].1 != without_account(l, account)[j].1,
    decreases l.len(),
{
    reveal(Seq::filter);
    if l.len() > 0 {
        let init = l.drop_last();
        assert forall|i: int, j: int| #![trigger init[i], init[j]] 0 <= i < init.len() && 0 <= j < init.len() && i != j implies init[i].0 != init[j].0 && init[i].1 != init[j].1 by {
            assert(init[i] == l[i] && init[j] == l[j]);
        }
        lemma_filter_unique(init, account);
        lemma_filter_subseq(init, account);
        assert(l =~= init.push(l.last()));
        lemma_without_account_push(init, l.last(), account);
        let f = without_account(init, account);
        if l.last().0 != account {
            assert forall|i: int| 0 <= i < f.len() implies #[trigger] f[i].0 != l.last().0 && f[i].1 != l.last().1 by {
                assert(init.contains(f[i]));
                let j = choose|j: int| 0 <= j < init.len() && init[j] == f[i];
                assert(l[j] == f[i]);
                assert(l[l.len() - 1] == l.last());
            }
        }
    }
}

/// Removing the links to an account that no link points to changes nothing.
proof fn lemma_filter_keeps_all(l: Seq<LinkView>, account: KeyView)
    requires
        forall|i: int| 0 <= i < l.len() ==> #[trigger] l[i].0 != account,
    ensures
        without_account(l, account) == l,
    decreases l.len(),
{
    reveal(Seq::filter);
    if l.len() > 0 {
        let init = l.drop_last();
        assert forall|i: int| 0 <= i < init.len() implies #[trigger] init[i].0 != account by {
            assert(init[i] == l[i]);
        }
        lemma_filter_keeps_all(init, account);
        assert(l =~= init.push(l.last()));
        lemma_without_account_push(init, l.last(), account);
        assert(l[l.len() - 1] == l.last());
    }
}

/// Every event keeps the accounts free of applications with no account.
pub proof fn law_no_empty_links_kept(s: UserView, e: UserEvent)
    requires
        no_empty_links(s.accounts),
    ensures
        no_empty_links(user_after(s, e).accounts),
{
}

/// Every event a command produces on a state keeps the accounts of each
/// application distinct by key and by label.
pub proof fn law_links_unique_kept(s: UserView, c: UserCommand, now: UtcDateTime, evs: Seq<UserEvent>)
    requires
        links_unique(s.accounts),
        user_decision(s, c, now, Ok(evs)),
    ensures
        links_unique(user_after_all(s, evs).accounts),
{
    reveal_with_fuel(user_after_all, 4);
    match c {
        UserCommand::AddAccount { application, account, label } => {
            let m = s.accounts;
            let a = application@;
            let t = user_after_all(s, evs);
            assert(evs.drop_last() =~= Seq::<UserEvent>::empty());
            assert(t.accounts == map_after_add(m, a, account@, label@));
            let l = links_of(m, a);
            let l2 = l.push((account@, label@));
            assert forall|k: KeyView, i: int, j: int|
                #![trigger t.accounts[k][i], t.accounts[k][j]]
                t.accounts.dom().contains(k) && 0 <= i < t.accounts[k].len() && 0 <= j < t.accounts[k].len() && i != j
                    implies t.accounts[k][i].0 != t.accounts[k][j].0 && t.accounts[k][i].1 != t.accounts[k][j].1 by {
                if k == a {
                    assert(t.accounts[k] == l2);
                    if i == l.len() as int {
                        assert(!link_conflicts(l[j], account@, label@));
                    } else if j == l.len() as int {
                        assert(!link_conflicts(l[i], account@, label@));
                    } else {
                        assert(m.dom().contains(a));
                        assert(l2[i] == m[a][i] && l2[j] == m[a][j]);
                    }
                } else {
                    assert(t.accounts[k] == m[k]);
                }
            }
        },
        UserCommand::RemoveAccount { application, account } => {
            let m = s.accounts;
            let a = application@;
            let t = user_after_all(s, evs);
            assert(evs.drop_last() =~= Seq::<UserEvent>::empty());
            assert(t.accounts == map_after_remove(m, a, account@));
            let l = links_of(m, a);
            assert(m.dom().contains(a)) by {
                let i = choose|i: int| 0 <= i < links_of(m, a).len() && #[trigger] link_to(links_of(m, a)[i], account@);
            }
            assert forall|i: int, j: int| #![trigger l[i], l[j]] 0 <= i < l.len() && 0 <= j < l.len() && i != j implies l[i].0 != l[j].0 && l[i].1 != l[j].1 by {
                assert(m[a][i] == l[i] && m[a][j] == l[j]);
            }
            lemma_filter_unique(l, account@);
        },
        UserCommand::Create { .. } => {
            let t = user_after_all(s, evs);
            assert(evs.drop_last().drop_last().drop_last() =~= Seq::<UserEvent>::empty());
            assert(t.accounts == s.accounts);
        },
        _ => {
            let t = user_after_all(s, evs);
            assert(evs.drop_last() =~= Seq::<UserEvent>::empty());
            assert(t.accounts == s.accounts);
        },
    }
}

/// An accepted `AddAccount` appends the link to the application's accounts,
/// and from then on the same account, or the same label, is refused there.
pub proof fn law_add_account_then_linked(
    s: UserView,
    application: ModelKey,
    account: ModelKey,
    label: String,
    now: UtcDateTime,
    evs: Seq<UserEvent>,
    other_account: ModelKey,
    other_label: String,
)
    requires
        user_decision(s, UserCommand::AddAccount { application, account, label }, now, Ok(evs)),
        other_account@ == account@ || other_label@ == label@,
    ensures
        links_of(user_after_all(s, evs).accounts, application@) == links_of(s.accounts, application@).push(
            (account@, label@),
        ),
        account_linked(user_after_all(s, evs).accounts, application@, account@),
        user_decision(
            user_after_all(s, evs),
            UserCommand::AddAccount { application, account: other_account, label: other_label },
            now,
            Err(UserError::AccountAlreadyLinked),
        ),
{
    reveal_with_fuel(user_after_all, 2);
    assert(evs.drop_last() =~= Seq::<UserEvent>::empty());
    let t = user_after_all(s, evs);
    let n = links_of(s.accounts, application@).len() as int;
    assert(links_of(t.accounts, application@)[n] == (account@, label@));
    assert(link_to(links_of(t.accounts, application@)[n], account@));
    assert(link_conflicts(links_of(t.accounts, application@)[n], other_account@, other_label@));
}

/// An accepted `RemoveAccount` leaves the account unlinked.
pub proof fn law_remove_account_then_unlinked(
    s: UserView,
    application: ModelKey,
    account: ModelKey,
    now: UtcDateTime,
    evs: Seq<UserEvent>,
)
    requires
        user_decision(s, UserCommand::RemoveAccount { application, account }, now, Ok(evs)),
    ensures
        !account_linked(user_after_all(s, evs).accounts, application@, account@),
        user_decision(
            user_after_all(s, evs),
            UserCommand::RemoveAccount { application, account },
            now,
            Err(UserError::AccountAlreadyRemoved),
        ),
{
    reveal_with_fuel(user_after_all, 2);
    assert(evs.drop_last() =~= Seq::<UserEvent>::empty());
    let t = user_after_all(s, evs);
    let l = links_of(s.accounts, application@);
    lemma_filter_subseq(l, account@);
    if account_linked(t.accounts, application@, account@) {
        let i = choose|i: int| 0 <= i < links_of(t.accounts, application@).len() && #[trigger] link_to(links_of(t.accounts, application@)[i], account@);
        assert(links_of(t.accounts, application@) == without_account(l, account@));
    }
}

/// Removing an account that adding it linked gives back the accounts as they
/// were, provided the account was not linked there before and the application
/// was not held with an empty list.
pub proof fn law_remove_undoes_add(
    m: Map<KeyView, Seq<LinkView>>,
    application: KeyView,
    account: KeyView,
    label: Seq<char>,
)
    requires
        m.dom().contains(application) ==> m[application].len() > 0,
        !account_linked(m, application, account),
    ensures
        map_after_remove(map_after_add(m, application, account, label), application, account) == m,
{
    let l = links_of(m, application);
    assert forall|i: int| 0 <= i < l.len() implies #[trigger] l[i].0 != account by {
        if l[i].0 == account {
            assert(link_to(links_of(m, application)[i], account));
        }
    }
    lemma_filter_keeps_all(l, account);
    lemma_without_account_push(l, (account, label), account);
    let m2 = map_after_add(m, application, account, label);
    assert(links_of(m2, application) == l.push((account, label)));
    if m.dom().contains(application) {
        assert(map_after_remove(m2, application, account) =~= m);
    } else {
        assert(map_after_remove(m2, application, account) =~= m);
    }
}

/// Creating a user: accepted on a fresh state only, its events set the
/// pseudo, the password hash and both dates, and a second creation is refused.
pub proof fn law_create_user(
    pseudo: String,
    password_hash: String,
    now: UtcDateTime,
    evs: Seq<UserEvent>,
    pseudo2: String,
    password_hash2: String,
)
    requires
        user_decision(default_user(), UserCommand::Create { pseudo, password_hash }, now, Ok(evs)),
    ensures
        user_after_all(default_user(), evs).pseudo == pseudo@,
        user_after_all(default_user(), evs).password_hash == Some(password_hash@),
        user_after_all(default_user(), evs).created_at == now,
        user_after_all(default_user(), evs).password_change == now,
        user_decision(
            user_after_all(default_user(), evs),
            UserCommand::Create { pseudo: pseudo2, password_hash: password_hash2 },
            now,
            Err(UserError::AlreadyExists),
        ),
{
    reveal_with_fuel(user_after_all, 4);
    assert(evs.drop_last().drop_last().drop_last() =~= Seq::<UserEvent>::empty());
    let t = user_after_all(default_user(), evs);
    assert(t.password_hash != default_user().password_hash);
}

/// A role change sets the role, and asking for the same role again is refused.
pub proof fn law_change_role(s: UserView, role: Option<UserRole>, now: UtcDateTime, evs: Seq<UserEvent>)
    requires
        user_decision(s, UserCommand::ChangeRole(role), now, Ok(evs)),
    ensures
        user_after_all(s, evs).role == role,
        (user_after_all(s, evs).role == Some(UserRole::Admin)) == (role == Some(UserRole::Admin)),
        user_decision(user_after_all(s, evs), UserCommand::ChangeRole(role), now, Err(UserError::SameRole)),
{
    reveal_with_fuel(user_after_all, 2);
    assert(evs.drop_last() =~= Seq::<UserEvent>::empty());
}

/// A login records its instant as the last login.
pub proof fn law_login(s: UserView, now: UtcDateTime, evs: Seq<UserEvent>)
    requires
        user_decision(s, UserCommand::Login, now, Ok(evs)),
    ensures
        user_after_all(s, evs).last_login == Some(now),
{
    reveal_with_fuel(user_after_all, 2);
    assert(evs.drop_last() =~= Seq::<UserEvent>::empty());
}

/// A password change records the new hash and its instant.
pub proof fn law_change_password(s: UserView, password_hash: String, now: UtcDateTime, evs: Seq<UserEvent>)
    requires
        user_decision(s, UserCommand::ChangePassword { password_hash }, now, Ok(evs)),
    ensures
        user_after_all(s, evs).password_hash == Some(password_hash@),
        user_after_all(s, evs).password_change == now,
{
    reveal_with_fuel(user_after_all, 2);
    assert(evs.drop_last() =~= Seq::<UserEvent>::empty());
}

/// A history of a user: each step is a command, the instant it was decided
/// at, and the events that were played for it.
pub type UserStep = (UserCommand, UtcDateTime, Seq<UserEvent>);

/// The state a history leaves, starting from a user no event has touched.
pub open spec fn state_after_steps(steps: Seq<UserStep>) -> UserView
    decreases steps.len(),
{
    if steps.len() == 0 {
        default_user()
    } else {
        user_after_all(state_after_steps(steps.drop_last()), steps.last().2)
    }
}

/// Every step of the history played the events of an accepted command,
/// decided on the state the steps before it left.
pub open spec fn accepted_steps(steps: Seq<UserStep>) -> bool
    decreases steps.len(),
{
    if steps.len() == 0 {
        true
    } else {
        accepted_steps(steps.drop_last()) && user_decision(
            state_after_steps(steps.drop_last()),
            steps.last().0,
            steps.last().1,
            Ok(steps.last().2),
        )
    }
}

proof fn lemma_no_empty_links_all(s: UserView, evs: Seq<UserEvent>)
    requires
        no_empty_links(s.accounts),
    ensures
        no_empty_links(user_after_all(s, evs).accounts),
    decreases evs.len(),
{
    if evs.len() > 0 {
        lemma_no_empty_links_all(s, evs.drop_last());
        law_no_empty_links_kept(user_after_all(s, evs.drop_last()), evs.last());
    }
}

/// In every state a user reaches by playing the events of accepted commands,
/// from a user no event has touched, each application's accounts are
/// distinct by key and by label, and no application is held with no account.
pub proof fn law_reachable_links(steps: Seq<UserStep>)
    requires
        accepted_steps(steps),
    ensures
        links_unique(state_after_steps(steps).accounts),
        no_empty_links(state_after_steps(steps).accounts),
    decreases steps.len(),
{
    if steps.len() == 0 {
        assert(default_user().accounts =~= Map::<KeyView, Seq<LinkView>>::empty());
    } else {
        let before = steps.drop_last();
        law_reachable_links(before);
        let step = steps.last();
        law_links_unique_kept(state_after_steps(before), step.0, step.1, step.2);
        lemma_no_empty_links_all(state_after_steps(before), step.2);
    }
}

} // verus!
