//! The accounts a user holds, grouped by application: a map from an
//! application key to the list of (account key, label) pairs, in the order in
//! which they were linked.

use vstd::prelude::*;
use crate::model_key::ModelKey;

verus! {

/// The view of a model key.
pub type KeyView = (Seq<char>, u128);

/// The view of a linked account: its key and its label.
pub type LinkView = (KeyView, Seq<char>);

/// The view of a list of linked accounts.
pub open spec fn links_view(v: Seq<(ModelKey, String)>) -> Seq<LinkView> {
    v.map_values(|p: (ModelKey, String)| (p.0@, p.1@))
}

/// A copy of a linked account.
pub fn copy_link(p: &(ModelKey, String)) -> (r: (ModelKey, String))
    ensures
        r.0@ == p.0@,
        r.1@ == p.1@,
{
    (p.0.duplicate(), p.1.clone())
}

/// A copy of a list of linked accounts.
pub fn copy_links(v: &Vec<(ModelKey, String)>) -> (r: Vec<(ModelKey, String)>)
    ensures
        links_view(r@) == links_view(v@),
{
    let mut out: Vec<(ModelKey, String)> = Vec::new();
    let mut i: usize = 0;
    while i < v.len()
        invariant
            i <= v.len(),
            links_view(out@) =~= links_view(v@.take(i as int)),
        decreases v.len() - i,
    {
        let ghost before = out@;
        let link = copy_link(&v[i]);
        out.push(link);
        proof {
            lemma_links_view_push(before, link);
            lemma_links_view_push(v@.take(i as int), v@[i as int]);
        }
        assert(v@.take(i + 1) =~= v@.take(i as int).push(v@[i as int]));
        i = i + 1;
    }
    assert(v@.take(v.len() as int) =~= v@);
    out
}

/// The entry of `e` whose application key views as `k`, if one exists.
pub open spec fn has_entry(e: Seq<(ModelKey, Vec<(ModelKey, String)>)>, k: KeyView) -> bool {
    exists|i: int| 0 <= i < e.len() && #[trigger] e[i].0@ == k
}

/// No two entries of `e` have the same application key.
pub open spec fn keys_distinct(e: Seq<(ModelKey, Vec<(ModelKey, String)>)>) -> bool {
    forall|i: int, j: int| 0 <= i < e.len() && 0 <= j < e.len() && i != j ==> #[trigger] e[i].0@ != #[trigger] e[j].0@
}

/// The map that the entries stand for.
pub open spec fn entries_map(e: Seq<(ModelKey, Vec<(ModelKey, String)>)>) -> Map<KeyView, Seq<LinkView>> {
    Map::new(
        |k: KeyView| has_entry(e, k),
        |k: KeyView| links_view(e[choose|i: int| 0 <= i < e.len() && #[trigger] e[i].0@ == k].1@),
    )
}

/// With distinct keys, the map holds each entry's list under its key.
pub proof fn lemma_entries_map_at(e: Seq<(ModelKey, Vec<(ModelKey, String)>)>, i: int)
    requires
        keys_distinct(e),
        0 <= i < e.len(),
    ensures
        entries_map(e).dom().contains(e[i].0@),
        entries_map(e)[e[i].0@] == links_view(e[i].1@),
{
    let k = e[i].0@;
    assert(has_entry(e, k));
    let j = choose|j: int| 0 <= j < e.len() && #[trigger] e[j].0@ == k;
    assert(j == i);
}

/// Filtering a list with one more link.
pub proof fn lemma_without_account_push(s: Seq<LinkView>, x: LinkView, account: KeyView)
    ensures
        without_account(s.push(x), account) == (if x.0 != account {
            without_account(s, account).push(x)
        } else {
            without_account(s, account)
        }),
{
    reveal(Seq::filter);
    assert(s.push(x).drop_last() =~= s);
}

/// The links of a list that are not to `account`, copied.
fn keep_other_accounts(v: &Vec<(ModelKey, String)>, account: &ModelKey) -> (r: Vec<(ModelKey, String)>)
    ensures
        links_view(r@) == without_account(links_view(v@), account@),
{
    let mut out: Vec<(ModelKey, String)> = Vec::new();
    let mut i: usize = 0;
    proof {
        reveal(Seq::filter);
        assert(links_view(v@.take(0)) =~= Seq::<LinkView>::empty());
    }
    while i < v.len()
        invariant
            i <= v.len(),
            links_view(out@) == without_account(links_view(v@.take(i as int)), account@),
        decreases v.len() - i,
    {
        let ghost before = out@;
        proof {
            assert(v@.take(i + 1) =~= v@.take(i as int).push(v@[i as int]));
            lemma_links_view_push(v@.take(i as int), v@[i as int]);
            lemma_without_account_push(links_view(v@.take(i as int)), (v@[i as int].0@, v@[i as int].1@), account@);
        }
        if !v[i].0.same(account) {
            let link = copy_link(&v[i]);
            out.push(link);
            proof {
                lemma_links_view_push(before, link);
            }
        }
        i = i + 1;
    }
    assert(v@.take(v.len() as int) =~= v@);
    out
}

/// The map after linking each of `l`, in order, under `app`.
pub open spec fn add_links(m: Map<KeyView, Seq<LinkView>>, app: KeyView, l: Seq<LinkView>) -> Map<KeyView, Seq<LinkView>>
    decreases l.len(),
{
    if l.len() == 0 {
        m
    } else {
        map_after_add(add_links(m, app, l.drop_last()), app, l.last().0, l.last().1)
    }
}

/// The view of exported entries: each application with its links.
pub open spec fn entries_view(e: Seq<(ModelKey, Vec<(ModelKey, String)>)>) -> Seq<(KeyView, Seq<LinkView>)> {
    e.map_values(|p: (ModelKey, Vec<(ModelKey, String)>)| (p.0@, links_view(p.1@)))
}

/// The map after linking the lists of all entries, in order.
pub open spec fn add_entries(m: Map<KeyView, Seq<LinkView>>, e: Seq<(KeyView, Seq<LinkView>)>) -> Map<KeyView, Seq<LinkView>>
    decreases e.len(),
{
    if e.len() == 0 {
        m
    } else {
        add_links(add_entries(m, e.drop_last()), e.last().0, e.last().1)
    }
}

/// The accounts of a user, by application.
#[derive(Debug)]
pub struct AccountLinks {
    entries: Vec<(ModelKey, Vec<(ModelKey, String)>)>,
}

impl View for AccountLinks {
    type V = Map<KeyView, Seq<LinkView>>;

    closed spec fn view(&self) -> Map<KeyView, Seq<LinkView>> {
        entries_map(self.entries@)
    }
}

/// The list held under `app`, or the empty list.
pub open spec fn links_of(m: Map<KeyView, Seq<LinkView>>, app: KeyView) -> Seq<LinkView> {
    if m.dom().contains(app) {
        m[app]
    } else {
        Seq::empty()
    }
}

/// The list without the links to `account`.
pub open spec fn without_account(l: Seq<LinkView>, account: KeyView) -> Seq<LinkView> {
    l.filter(|p: LinkView| p.0 != account)
}

/// The map after linking `account` with `label` under `app`.
pub open spec fn map_after_add(
    m: Map<KeyView, Seq<LinkView>>,
    app: KeyView,
    account: KeyView,
    label: Seq<char>,
) -> Map<KeyView, Seq<LinkView>> {
    m.insert(app, links_of(m, app).push((account, label)))
}

/// The map after unlinking `account` under `app`: the links to it go, and an
/// application left without links goes too.
pub open spec fn map_after_remove(m: Map<KeyView, Seq<LinkView>>, app: KeyView, account: KeyView) -> Map<
    KeyView,
    Seq<LinkView>,
> {
    let rest = without_account(links_of(m, app), account);
    if rest.len() == 0 {
        m.remove(app)
    } else {
        m.insert(app, rest)
    }
}

/// The link is to `account` or carries `label`.
pub open spec fn link_conflicts(p: LinkView, account: KeyView, label: Seq<char>) -> bool {
    p.0 == account || p.1 == label
}

/// The link is to `account`.
pub open spec fn link_to(p: LinkView, account: KeyView) -> bool {
    p.0 == account
}

/// `label` or `account` already stands among the links under `app`.
pub open spec fn link_taken(m: Map<KeyView, Seq<LinkView>>, app: KeyView, account: KeyView, label: Seq<char>) -> bool {
    exists|i: int| 0 <= i < links_of(m, app).len() && #[trigger] link_conflicts(links_of(m, app)[i], account, label)
}

/// `account` stands among the links under `app`.
pub open spec fn account_linked(m: Map<KeyView, Seq<LinkView>>, app: KeyView, account: KeyView) -> bool {
    exists|i: int| 0 <= i < links_of(m, app).len() && #[trigger] link_to(links_of(m, app)[i], account)
}

/// Viewing a list with one more link.
pub proof fn lemma_links_view_push(s: Seq<(ModelKey, String)>, x: (ModelKey, String))
    ensures
        links_view(s.push(x)) =~= links_view(s).push((x.0@, x.1@)),
{
    assert forall|k: int| 0 <= k < s.len() + 1 implies #[trigger] links_view(s.push(x))[k] == links_view(s).push((x.0@, x.1@))[k] by {
        if k < s.len() {
            assert(s.push(x)[k] == s[k]);
        }
    }
}

impl AccountLinks {
    /// The internal invariant: application keys are distinct.
    pub closed spec fn wf(&self) -> bool {
        keys_distinct(self.entries@)
    }

    /// No application.
    pub fn new() -> (r: AccountLinks)
        ensures
            r.wf(),
            r@ == Map::<KeyView, Seq<LinkView>>::empty(),
    {
        let r = AccountLinks { entries: Vec::new() };
        assert(r@ =~= Map::<KeyView, Seq<LinkView>>::empty());
        r
    }

    /// Whether no application is held.
    pub fn is_empty(&self) -> (r: bool)
        requires
            self.wf(),
        ensures
            r == (self@.dom() =~= Set::<KeyView>::empty()),
    {
        if self.entries.len() == 0 {
            assert(self@.dom() =~= Set::<KeyView>::empty());
            true
        } else {
            proof {
                lemma_entries_map_at(self.entries@, 0);
            }
            assert(self@.dom().contains(self.entries@[0].0@));
            false
        }
    }

    fn find(&self, app: &ModelKey) -> (r: Option<usize>)
        requires
            self.wf(),
        ensures
            r matches Some(i) ==> i < self.entries@.len() && self.entries@[i as int].0@ == app@,
            r is None ==> !has_entry(self.entries@, app@),
    {
        let mut i: usize = 0;
        while i < self.entries.len()
            invariant
                i <= self.entries@.len(),
                forall|j: int| 0 <= j < i ==> self.entries@[j].0@ != app@,
            decreases self.entries.len() - i,
        {
            if self.entries[i].0.same(app) {
                return Some(i);
            }
            i = i + 1;
        }
        None
    }

    /// The links held under `app` (empty when there are none).
    pub fn get(&self, app: &ModelKey) -> (r: Vec<(ModelKey, String)>)
        requires
            self.wf(),
        ensures
            links_view(r@) == links_of(self@, app@),
    {
        match self.find(app) {
            Some(i) => {
                proof {
                    lemma_entries_map_at(self.entries@, i as int);
                }
                copy_links(&self.entries[i].1)
            },
            None => {
                let r: Vec<(ModelKey, String)> = Vec::new();
                assert(links_view(r@) =~= Seq::<LinkView>::empty());
                r
            },
        }
    }

    /// Whether `app` has links at all.
    pub fn contains_application(&self, app: &ModelKey) -> (r: bool)
        requires
            self.wf(),
        ensures
            r == self@.dom().contains(app@),
    {
        match self.find(app) {
            Some(i) => {
                proof {
                    lemma_entries_map_at(self.entries@, i as int);
                }
                true
            },
            None => false,
        }
    }

    /// Whether `account` or `label` is already linked under `app`.
    pub fn is_taken(&self, app: &ModelKey, account: &ModelKey, label: &String) -> (r: bool)
        requires
            self.wf(),
        ensures
            r == link_taken(self@, app@, account@, label@),
    {
        let list = self.get(app);
        let ghost l = links_of(self@, app@);
        let mut i: usize = 0;
        while i < list.len()
            invariant
                i <= list@.len(),
                links_view(list@) == l,
                l == links_of(self@, app@),
                forall|j: int| 0 <= j < i ==> !#[trigger] link_conflicts(l[j], account@, label@),
            decreases list.len() - i,
        {
            assert(l[i as int] == (list@[i as int].0@, list@[i as int].1@));
            if list[i].0.same(account) || list[i].1 == *label {
                assert(link_conflicts(links_of(self@, app@)[i as int], account@, label@));
                assert(i < links_of(self@, app@).len());
                return true;
            }
            i = i + 1;
        }
        false
    }

    /// Whether `account` is linked under `app`.
    pub fn has_account(&self, app: &ModelKey, account: &ModelKey) -> (r: bool)
        requires
            self.wf(),
        ensures
            r == account_linked(self@, app@, account@),
    {
        let list = self.get(app);
        let ghost l = links_of(self@, app@);
        let mut i: usize = 0;
        while i < list.len()
            invariant
                i <= list@.len(),
                links_view(list@) == l,
                l == links_of(self@, app@),
                forall|j: int| 0 <= j < i ==> !#[trigger] link_to(l[j], account@),
            decreases list.len() - i,
        {
            assert(l[i as int] == (list@[i as int].0@, list@[i as int].1@));
            if list[i].0.same(account) {
                assert(link_to(links_of(self@, app@)[i as int], account@));
                assert(i < links_of(self@, app@).len());
                return true;
            }
            i = i + 1;
        }
        false
    }

    /// Links `account` with `label` under `app`, after the links already there.
    pub fn add(&mut self, app: &ModelKey, account: &ModelKey, label: &String)
        requires
            old(self).wf(),
        ensures
            final(self).wf(),
            final(self)@ == map_after_add(old(self)@, app@, account@, label@),
    {
        let ghost m0 = self@;
        let link = (account.duplicate(), label.clone());
        match self.find(app) {
            Some(i) => {
                proof {
                    lemma_entries_map_at(self.entries@, i as int);
                }
                let ghost e0 = self.entries@;
                let (key, mut list) = self.entries.remove(i);
                let ghost l0 = list@;
                list.push(link);
                proof {
                    lemma_links_view_push(l0, link);
                }
                self.entries.insert(i, (key, list));
                let ghost e1 = self.entries@;
                assert(e1 =~= e0.update(i as int, e1[i as int]));
                assert(keys_distinct(e1)) by {
                    assert forall|a: int, b: int| 0 <= a < e1.len() && 0 <= b < e1.len() && a != b implies #[trigger] e1[a].0@ != #[trigger] e1[b].0@ by {
                        assert(e1[a].0@ == e0[a].0@);
                        assert(e1[b].0@ == e0[b].0@);
                    }
                }
                assert(self@ =~= map_after_add(m0, app@, account@, label@)) by {
                    assert forall|k: KeyView| #[trigger] self@.dom().contains(k) <==> map_after_add(m0, app@, account@, label@).dom().contains(k) by {
                        if has_entry(e1, k) {
                            let j = choose|j: int| 0 <= j < e1.len() && #[trigger] e1[j].0@ == k;
                            assert(e0[j].0@ == k);
                        }
                        if has_entry(e0, k) {
                            let j = choose|j: int| 0 <= j < e0.len() && #[trigger] e0[j].0@ == k;
                            assert(e1[j].0@ == k);
                        }
                    }
                    assert forall|k: KeyView| #[trigger] self@.dom().contains(k) implies self@[k] == map_after_add(m0, app@, account@, label@)[k] by {
                        let j = choose|j: int| 0 <= j < e1.len() && #[trigger] e1[j].0@ == k;
                        lemma_entries_map_at(e1, j);
                        lemma_entries_map_at(e0, j);
                    }
                }
            },
            None => {
                let ghost e0 = self.entries@;
                let mut list: Vec<(ModelKey, String)> = Vec::new();
                list.push(link);
                assert(links_view(list@) =~= seq![(account@, label@)]);
                self.entries.push((app.duplicate(), list));
                let ghost e1 = self.entries@;
                let ghost n = e0.len() as int;
                assert(keys_distinct(e1)) by {
                    assert forall|a: int, b: int| 0 <= a < e1.len() && 0 <= b < e1.len() && a != b implies #[trigger] e1[a].0@ != #[trigger] e1[b].0@ by {
                        if a == n {
                            assert(e1[b] == e0[b]);
                        } else if b == n {
                            assert(e1[a] == e0[a]);
                        } else {
                            assert(e1[a] == e0[a]);
                            assert(e1[b] == e0[b]);
                        }
                    }
                }
                assert(self@ =~= map_after_add(m0, app@, account@, label@)) by {
                    assert(links_of(m0, app@) =~= Seq::<LinkView>::empty());
                    assert forall|k: KeyView| #[trigger] self@.dom().contains(k) <==> map_after_add(m0, app@, account@, label@).dom().contains(k) by {
                        if has_entry(e1, k) {
                            let j = choose|j: int| 0 <= j < e1.len() && #[trigger] e1[j].0@ == k;
                            if j < n {
                                assert(e0[j].0@ == k);
                            }
                        }
                        if has_entry(e0, k) {
                            let j = choose|j: int| 0 <= j < e0.len() && #[trigger] e0[j].0@ == k;
                            assert(e1[j].0@ == k);
                        }
                        if k == app@ {
                            assert(e1[n].0@ == k);
                        }
                    }
                    assert forall|k: KeyView| #[trigger] self@.dom().contains(k) implies self@[k] == map_after_add(m0, app@, account@, label@)[k] by {
                        let j = choose|j: int| 0 <= j < e1.len() && #[trigger] e1[j].0@ == k;
                        lemma_entries_map_at(e1, j);
                        if j < n {
                            assert(e1[j] == e0[j]);
                            lemma_entries_map_at(e0, j);
                        }
                    }
                }
            },
        }
    }

    /// Unlinks `account` under `app`; an application left without links goes.
    pub fn remove(&mut self, app: &ModelKey, account: &ModelKey)
        requires
            old(self).wf(),
        ensures
            final(self).wf(),
            final(self)@ == map_after_remove(old(self)@, app@, account@),
    {
        let ghost m0 = self@;
        let ghost e0 = self.entries@;
        match self.find(app) {
            None => {
                proof {
                    reveal(Seq::filter);
                }
                assert(links_of(m0, app@) =~= Seq::<LinkView>::empty());
                assert(without_account(Seq::<LinkView>::empty(), account@) =~= Seq::<LinkView>::empty());
                assert(self@ =~= map_after_remove(m0, app@, account@));
            },
            Some(i) => {
                proof {
                    lemma_entries_map_at(e0, i as int);
                }
                let (key, list) = self.entries.remove(i);
                let kept = keep_other_accounts(&list, account);
                let ghost e1 = self.entries@;
                assert(e1 =~= e0.remove(i as int));
                if kept.len() == 0 {
                    assert(keys_distinct(e1)) by {
                        assert forall|a: int, b: int| 0 <= a < e1.len() && 0 <= b < e1.len() && a != b implies #[trigger] e1[a].0@ != #[trigger] e1[b].0@ by {
                            let a0 = if a < i { a } else { a + 1 };
                            let b0 = if b < i { b } else { b + 1 };
                            assert(e1[a] == e0[a0]);
                            assert(e1[b] == e0[b0]);
                        }
                    }
                    assert(self@ =~= map_after_remove(m0, app@, account@)) by {
                        assert forall|k: KeyView| #[trigger] self@.dom().contains(k) <==> map_after_remove(m0, app@, account@).dom().contains(k) by {
                            if has_entry(e1, k) {
                                let j = choose|j: int| 0 <= j < e1.len() && #[trigger] e1[j].0@ == k;
                                let j0 = if j < i { j } else { j + 1 };
                                assert(e0[j0].0@ == k);
                            }
                            if has_entry(e0, k) && k != app@ {
                                let j = choose|j: int| 0 <= j < e0.len() && #[trigger] e0[j].0@ == k;
                                if j < i {
                                    assert(e1[j].0@ == k);
                                } else {
                                    assert(j != i);
                                    assert(e1[j - 1].0@ == k);
                                }
                            }
                        }
                        assert forall|k: KeyView| #[trigger] self@.dom().contains(k) implies self@[k] == map_after_remove(m0, app@, account@)[k] by {
                            let j = choose|j: int| 0 <= j < e1.len() && #[trigger] e1[j].0@ == k;
                            let j0 = if j < i { j } else { j + 1 };
                            lemma_entries_map_at(e1, j);
                            lemma_entries_map_at(e0, j0);
                        }
                    }
                } else {
                    self.entries.insert(i, (key, kept));
                    let ghost e2 = self.entries@;
                    assert(e2 =~= e0.update(i as int, e2[i as int]));
                    assert(keys_distinct(e2)) by {
                        assert forall|a: int, b: int| 0 <= a < e2.len() && 0 <= b < e2.len() && a != b implies #[trigger] e2[a].0@ != #[trigger] e2[b].0@ by {
                            assert(e2[a].0@ == e0[a].0@);
                            assert(e2[b].0@ == e0[b].0@);
                        }
                    }
                    assert(self@ =~= map_after_remove(m0, app@, account@)) by {
                        assert forall|k: KeyView| #[trigger] self@.dom().contains(k) <==> map_after_remove(m0, app@, account@).dom().contains(k) by {
                            if has_entry(e2, k) {
                                let j = choose|j: int| 0 <= j < e2.len() && #[trigger] e2[j].0@ == k;
                                assert(e0[j].0@ == k);
                            }
                            if has_entry(e0, k) {
                                let j = choose|j: int| 0 <= j < e0.len() && #[trigger] e0[j].0@ == k;
                                assert(e2[j].0@ == k);
                            }
                        }
                        assert forall|k: KeyView| #[trigger] self@.dom().contains(k) implies self@[k] == map_after_remove(m0, app@, account@)[k] by {
                            let j = choose|j: int| 0 <= j < e2.len() && #[trigger] e2[j].0@ == k;
                            lemma_entries_map_at(e2, j);
                            lemma_entries_map_at(e0, j);
                        }
                    }
                }
            },
        }
    }

    /// Links, in order, every account of every entry under its application.
    pub fn add_all(&mut self, entries: &Vec<(ModelKey, Vec<(ModelKey, String)>)>)
        requires
            old(self).wf(),
        ensures
            final(self).wf(),
            final(self)@ == add_entries(old(self)@, entries_view(entries@)),
    {
        let ghost m0 = self@;
        let mut i: usize = 0;
        while i < entries.len()
            invariant
                i <= entries@.len(),
                self.wf(),
                self@ == add_entries(m0, entries_view(entries@.take(i as int))),
            decreases entries.len() - i,
        {
            let ghost m1 = self@;
            let app = &entries[i].0;
            let list = &entries[i].1;
            let mut j: usize = 0;
            while j < list.len()
                invariant
                    j <= list@.len(),
                    self.wf(),
                    self@ == add_links(m1, app@, links_view(list@.take(j as int))),
                decreases list.len() - j,
            {
                self.add(app, &list[j].0, &list[j].1);
                proof {
                    assert(list@.take(j + 1) =~= list@.take(j as int).push(list@[j as int]));
                    lemma_links_view_push(list@.take(j as int), list@[j as int]);
                    assert(links_view(list@.take(j + 1)).drop_last() =~= links_view(list@.take(j as int)));
                }
                j = j + 1;
            }
            proof {
                assert(list@.take(list.len() as int) =~= list@);
                assert(entries@.take(i + 1) =~= entries@.take(i as int).push(entries@[i as int]));
                assert(entries_view(entries@.take(i + 1)).drop_last() =~= entries_view(entries@.take(i as int)));
            }
            i = i + 1;
        }
        assert(entries@.take(entries.len() as int) =~= entries@);
    }

    /// Every application with its links.
    pub fn entries(&self) -> (r: Vec<(ModelKey, Vec<(ModelKey, String)>)>)
        requires
            self.wf(),
        ensures
            keys_distinct(r@),
            entries_map(r@) == self@,
    {
        let mut out: Vec<(ModelKey, Vec<(ModelKey, String)>)> = Vec::new();
        let mut i: usize = 0;
        while i < self.entries.len()
            invariant
                i <= self.entries@.len(),
                out@.len() == i,
                forall|j: int| 0 <= j < i ==> (#[trigger] out@[j]).0@ == self.entries@[j].0@ && links_view(out@[j].1@) == links_view(self.entries@[j].1@),
            decreases self.entries.len() - i,
        {
            let e = &self.entries[i];
            out.push((e.0.duplicate(), copy_links(&e.1)));
            i = i + 1;
        }
        let ghost e0 = self.entries@;
        let ghost e1 = out@;
        assert(keys_distinct(e1)) by {
            assert forall|a: int, b: int| 0 <= a < e1.len() && 0 <= b < e1.len() && a != b implies #[trigger] e1[a].0@ != #[trigger] e1[b].0@ by {
                assert(e1[a].0@ == e0[a].0@);
                assert(e1[b].0@ == e0[b].0@);
            }
        }
        assert(entries_map(e1) =~= entries_map(e0)) by {
            assert forall|k: KeyView| #[trigger] entries_map(e1).dom().contains(k) <==> entries_map(e0).dom().contains(k) by {
                if has_entry(e1, k) {
                    let j = choose|j: int| 0 <= j < e1.len() && #[trigger] e1[j].0@ == k;
                    assert(e0[j].0@ == k);
                }
                if has_entry(e0, k) {
                    let j = choose|j: int| 0 <= j < e0.len() && #[trigger] e0[j].0@ == k;
                    assert(e1[j].0@ == k);
                }
            }
            assert forall|k: KeyView| #[trigger] entries_map(e1).dom().contains(k) implies entries_map(e1)[k] == entries_map(e0)[k] by {
                let j = choose|j: int| 0 <= j < e1.len() && #[trigger] e1[j].0@ == k;
                lemma_entries_map_at(e1, j);
                lemma_entries_map_at(e0, j);
            }
        }
        out
    }
}

} // verus!
