//! Session and layout data store.

use std::time::Duration;

use vstd::prelude::*;

use crate::host::{LayoutInfo, LayoutView, SessionInfo};
use crate::text::{chars_lt, chars_of, lex_lt, str_eq};
use crate::types::SelectedSession;

verus! {

/// Represents either an active or dead session in the unified list.
#[derive(Debug)]
pub enum SessionEntry {
    /// A currently running session.
    Active(SessionInfo),
    /// A dead session that can be resurrected.
    Dead { name: String, duration: Duration },
}

/// The abstract value of a [`SessionEntry`].
pub enum EntryView {
    Active { name: Seq<char>, is_current: bool, layouts: Seq<LayoutView> },
    Dead { name: Seq<char>, duration: Duration },
}

impl EntryView {
    /// The session's name.
    pub open spec fn name(self) -> Seq<char> {
        match self {
            EntryView::Active { name, .. } => name,
            EntryView::Dead { name, .. } => name,
        }
    }
}

/// The abstract values of a sequence of layouts.
pub open spec fn layouts_view(layouts: Seq<LayoutInfo>) -> Seq<LayoutView> {
    layouts.map_values(|l: LayoutInfo| l@)
}

/// The abstract value of a running session, as the store lists it.
pub open spec fn session_view(s: SessionInfo) -> EntryView {
    EntryView::Active {
        name: s.name@,
        is_current: s.is_current_session,
        layouts: layouts_view(s.available_layouts@),
    }
}

impl View for SessionEntry {
    type V = EntryView;

    open spec fn view(&self) -> EntryView {
        match self {
            SessionEntry::Active(s) => session_view(*s),
            SessionEntry::Dead { name, duration } => EntryView::Dead {
                name: name@,
                duration: *duration,
            },
        }
    }
}

/// The abstract values of a sequence of entries.
pub open spec fn entries_view(entries: Seq<SessionEntry>) -> Seq<EntryView> {
    entries.map_values(|e: SessionEntry| e@)
}

impl SessionEntry {
    /// Returns the session name regardless of variant.
    pub fn name(&self) -> (res: &str)
        ensures
            res@ == self@.name(),
    {
        match self {
            SessionEntry::Active(s) => s.name.as_str(),
            SessionEntry::Dead { name, .. } => name.as_str(),
        }
    }
}

// ---------------------------------------------------------------------------
// The model of `update`
// ---------------------------------------------------------------------------
/// The index of the first session marked current, or the length of the
/// sequence when there is none.
pub open spec fn first_current(sessions: Seq<SessionInfo>) -> nat
    decreases sessions.len(),
{
    if sessions.len() == 0 {
        0
    } else if sessions[0].is_current_session {
        0
    } else {
        1 + first_current(sessions.drop_first())
    }
}

/// The running sessions as listed after the store took the layouts of the
/// current one (the first session marked current keeps no layouts).
pub open spec fn listed_sessions(sessions: Seq<SessionInfo>) -> Seq<EntryView> {
    Seq::new(
        sessions.len(),
        |i: int|
            if i == first_current(sessions) {
                EntryView::Active {
                    name: sessions[i].name@,
                    is_current: sessions[i].is_current_session,
                    layouts: Seq::empty(),
                }
            } else {
                session_view(sessions[i])
            },
    )
}

/// The dead sessions as listed.
pub open spec fn listed_dead(dead: Seq<(String, Duration)>) -> Seq<EntryView> {
    dead.map_values(|d: (String, Duration)| EntryView::Dead { name: d.0@, duration: d.1 })
}

/// Inserts `x` into `s` after every entry whose name does not sort after
/// `x`'s name (one step of a stable insertion sort).
pub open spec fn insert_by_name(s: Seq<EntryView>, x: EntryView) -> Seq<EntryView>
    decreases s.len(),
{
    if s.len() == 0 {
        seq![x]
    } else if lex_lt(x.name(), s.last().name()) {
        insert_by_name(s.drop_last(), x).push(s.last())
    } else {
        s.push(x)
    }
}

/// `s` stably sorted by name: entries with equal names keep their order.
pub open spec fn sort_by_name(s: Seq<EntryView>) -> Seq<EntryView>
    decreases s.len(),
{
    if s.len() == 0 {
        s
    } else {
        insert_by_name(sort_by_name(s.drop_last()), s.last())
    }
}

/// The unified list that a snapshot of running and dead sessions gives:
/// running sessions first, then dead ones, stably sorted by name.
pub open spec fn unified_listing(sessions: Seq<SessionInfo>, dead: Seq<(String, Duration)>) -> Seq<
    EntryView,
> {
    sort_by_name(listed_sessions(sessions) + listed_dead(dead))
}

/// Whether two listings agree on every entry's kind and name, and on which
/// running session is the current one (what the store compares).
pub open spec fn same_listing(a: Seq<EntryView>, b: Seq<EntryView>) -> bool {
    a.len() == b.len() && forall|i: int| 0 <= i < a.len() ==> same_entry(#[trigger] a[i], b[i])
}

/// Whether a listing is sorted by name.
pub open spec fn sorted_by_name(s: Seq<EntryView>) -> bool {
    forall|i: int, j: int| 0 <= i < j < s.len() ==> !lex_lt(#[trigger] s[j].name(), #[trigger] s[i].name())
}

/// Holds the current unified set of sessions and available layouts
/// reported by the host.
pub struct SessionStore {
    /// All sessions (active and dead), sorted alphabetically by name.
    pub entries: Vec<SessionEntry>,
    /// Layouts available from the current session for creating new sessions.
    pub available_layouts: Vec<LayoutInfo>,
}

impl Default for SessionStore {
    fn default() -> (res: Self)
        ensures
            res.entries@.len() == 0,
            res.available_layouts@.len() == 0,
    {
        SessionStore { entries: Vec::new(), available_layouts: Vec::new() }
    }
}

/// Whether `sel` refers to `entry` (the same running session, or a dead
/// session of the same name).
pub open spec fn refers_to(sel: SelectedSession, entry: SessionEntry) -> bool {
    match sel {
        SelectedSession::Active(s) => entry matches SessionEntry::Active(t) && *s == t,
        SelectedSession::Dead(n) => entry matches SessionEntry::Dead { name, .. } && n@ == name@,
    }
}

proof fn lemma_insert_by_name_at(s: Seq<EntryView>, x: EntryView, pos: int)
    requires
        0 <= pos <= s.len(),
        forall|j: int| pos <= j < s.len() ==> lex_lt(x.name(), #[trigger] s[j].name()),
        pos == 0 || !lex_lt(x.name(), s[pos - 1].name()),
    ensures
        insert_by_name(s, x) == s.insert(pos, x),
    decreases s.len(),
{
    if s.len() == 0 {
        assert(s.insert(pos, x) =~= seq![x]);
    } else if lex_lt(x.name(), s.last().name()) {
        assert(pos < s.len());
        let t = s.drop_last();
        assert forall|j: int| pos <= j < t.len() implies lex_lt(x.name(), #[trigger] t[j].name()) by {
            assert(t[j] == s[j]);
        }
        if pos > 0 {
            assert(t[pos - 1] == s[pos - 1]);
        }
        lemma_insert_by_name_at(t, x, pos);
        assert(t.insert(pos, x).push(s.last()) =~= s.insert(pos, x));
    } else {
        if pos < s.len() {
            assert(lex_lt(x.name(), s[s.len() - 1].name()));
        }
        assert(pos == s.len());
        assert(s.push(x) =~= s.insert(pos, x));
    }
}

/// Sorts entries stably by name.
fn sort_entries_by_name(entries: Vec<SessionEntry>) -> (res: Vec<SessionEntry>)
    ensures
        entries_view(res@) == sort_by_name(entries_view(entries@)),
{
    let ghost input = entries_view(entries@);
    let mut rest = entries;
    let mut sorted: Vec<SessionEntry> = Vec::new();
    let ghost k: int = 0;
    assert(input.take(0) =~= Seq::<EntryView>::empty());
    while rest.len() > 0
        invariant
            0 <= k <= input.len(),
            k + rest@.len() == input.len(),
            entries_view(rest@) == input.skip(k),
            entries_view(sorted@) == sort_by_name(input.take(k)),
        decreases rest.len(),
    {
        let ghost rb = rest@;
        let x = rest.remove(0);
        proof {
            assert(entries_view(rest@) =~= entries_view(rb).drop_first());
            assert(input.skip(k).drop_first() =~= input.skip(k + 1));
            assert(entries_view(rb)[0] == x@);
            assert(input.skip(k)[0] == input[k]);
        }
        let key = chars_of(x.name());
        let mut pos = sorted.len();
        while pos > 0 && chars_lt(&key, &chars_of(sorted[pos - 1].name()))
            invariant
                key@ == x@.name(),
                pos <= sorted@.len(),
                forall|j: int|
                    pos <= j < sorted@.len() ==> lex_lt(x@.name(), #[trigger] sorted@[j]@.name()),
            decreases pos,
        {
            pos = pos - 1;
        }
        proof {
            let s = entries_view(sorted@);
            assert forall|j: int| pos <= j < s.len() implies lex_lt(
                x@.name(),
                #[trigger] s[j].name(),
            ) by {
                assert(s[j] == sorted@[j]@);
            }
            if pos > 0 {
                assert(s[pos - 1] == sorted@[pos - 1]@);
            }
            lemma_insert_by_name_at(s, x@, pos as int);
            assert(input.take(k + 1).drop_last() =~= input.take(k));
            assert(input.take(k + 1).last() == input[k]);
        }
        let ghost before = sorted@;
        sorted.insert(pos, x);
        proof {
            assert(entries_view(sorted@) =~= entries_view(before).insert(pos as int, x@));
            k = k + 1;
        }
    }
    assert(input.take(k) =~= input);
    sorted
}

/// Whether a snapshot brings new layouts: it has a current session, and its
/// layouts differ from those held.
pub open spec fn layouts_replaced(sessions: Seq<SessionInfo>, held: Seq<LayoutInfo>) -> bool {
    first_current(sessions) < sessions.len() && layouts_view(
        sessions[first_current(sessions) as int].available_layouts@,
    ) != layouts_view(held)
}

/// Whether two lists of layouts are the same, layout by layout.
fn layouts_eq(a: &[LayoutInfo], b: &[LayoutInfo]) -> (res: bool)
    ensures
        res == (layouts_view(a@) == layouts_view(b@)),
{
    if a.len() != b.len() {
        assert(layouts_view(a@).len() != layouts_view(b@).len());
        return false;
    }
    let n = a.len();
    let mut i: usize = 0;
    while i < n
        invariant
            n == a@.len(),
            n == b@.len(),
            i <= n,
            forall|j: int| 0 <= j < i ==> (#[trigger] a@[j])@ == b@[j]@,
        decreases n - i,
    {
        let same = match (&a[i], &b[i]) {
            (LayoutInfo::BuiltIn(x), LayoutInfo::BuiltIn(y)) => str_eq(x.as_str(), y.as_str()),
            (LayoutInfo::File(x), LayoutInfo::File(y)) => str_eq(x.as_str(), y.as_str()),
            (LayoutInfo::Url(x), LayoutInfo::Url(y)) => str_eq(x.as_str(), y.as_str()),
            (LayoutInfo::Stringified(x), LayoutInfo::Stringified(y)) => str_eq(
                x.as_str(),
                y.as_str(),
            ),
            _ => false,
        };
        if !same {
            assert(layouts_view(a@)[i as int] != layouts_view(b@)[i as int]);
            return false;
        }
        i = i + 1;
    }
    assert(layouts_view(a@) =~= layouts_view(b@));
    true
}

impl SessionStore {
    /// Returns the total number of sessions.
    pub fn total_count(&self) -> (res: usize)
        ensures
            res == self.entries@.len(),
    {
        self.entries.len()
    }

    /// Returns the session at the given index as a [`SelectedSession`].
    pub fn selected_session(&self, index: usize) -> (res: Option<SelectedSession<'_>>)
        ensures
            res is Some <==> index < self.entries@.len(),
            res matches Some(sel) ==> refers_to(sel, self.entries@[index as int])
                && sel.name_view() == self.entries@[index as int]@.name(),
    {
        if index < self.entries.len() {
            match &self.entries[index] {
                SessionEntry::Active(s) => Some(SelectedSession::Active(s)),
                SessionEntry::Dead { name, .. } => Some(SelectedSession::Dead(name.as_str())),
            }
        } else {
            None
        }
    }

    /// Merges active and dead sessions into a single alphabetically-sorted
    /// list, and copies available layouts from the current session.
    ///
    /// Returns `true` if the store changed (its listing or its layouts),
    /// `false` if the update was a no-op.
    pub fn update(&mut self, sessions: Vec<SessionInfo>, resurrectable_sessions: Vec<(String, Duration)>) -> (changed: bool)
        ensures
            ({
                let listing = unified_listing(sessions@, resurrectable_sessions@);
                let relisted = !same_listing(entries_view(old(self).entries@), listing);
                let new_layouts = layouts_replaced(sessions@, old(self).available_layouts@);
                &&& changed == (relisted || new_layouts)
                &&& relisted ==> entries_view(final(self).entries@) == listing
                &&& !relisted ==> final(self).entries@ == old(self).entries@
                &&& new_layouts ==> layouts_view(final(self).available_layouts@) == layouts_view(
                    sessions@[first_current(sessions@) as int].available_layouts@,
                )
                &&& !new_layouts ==> final(self).available_layouts@ == old(
                    self,
                ).available_layouts@
            }),
            !changed ==> final(self).entries@ == old(self).entries@
                && final(self).available_layouts@ == old(self).available_layouts@,
    {
        let ghost listing = unified_listing(sessions@, resurrectable_sessions@);
        let ghost old_layouts = self.available_layouts@;
        let ghost fc = first_current(sessions@);
        let mut sessions = sessions;
        let n = sessions.len();
        // Find the current session.
        let mut i: usize = 0;
        while i < n && !sessions[i].is_current_session
            invariant
                n == sessions@.len(),
                i <= n,
                forall|j: int| 0 <= j < i ==> !sessions@[j].is_current_session,
            decreases n - i,
        {
            i = i + 1;
        }
        proof {
            lemma_first_current(sessions@, i as int);
        }
        let ghost given = sessions@;
        assert(fc == first_current(given));
        let mut layouts_changed = false;
        if i < n {
            let mut taken: Vec<LayoutInfo> = Vec::new();
            let mut current = sessions.remove(i);
            std::mem::swap(&mut taken, &mut current.available_layouts);
            if !layouts_eq(taken.as_slice(), self.available_layouts.as_slice()) {
                self.available_layouts = taken;
                layouts_changed = true;
            }
            sessions.insert(i, current);
        }
        assert(layouts_changed == layouts_replaced(given, old_layouts));
        assert forall|j: int| 0 <= j < sessions@.len() implies session_view(#[trigger] sessions@[j])
            == listed_sessions(given)[j] by {
            if j != i {
                assert(sessions@[j] == given[j]);
            } else {
                assert(layouts_view(sessions@[j].available_layouts@) =~= Seq::<LayoutView>::empty());
            }
        }
        assert(entries_view(Seq::<SessionEntry>::empty()) =~= Seq::<EntryView>::empty());
        // Running sessions first, then dead ones.
        let mut entries: Vec<SessionEntry> = Vec::new();
        let mut k: usize = 0;
        while sessions.len() > 0
            invariant
                given.len() == n,
                fc == first_current(given),
                k + sessions@.len() == n,
                forall|j: int|
                    0 <= j < sessions@.len() ==> session_view(#[trigger] sessions@[j])
                        == listed_sessions(given)[k + j],
                entries_view(entries@) == listed_sessions(given).take(k as int),
            decreases sessions.len(),
        {
            let s = sessions.remove(0);
            let ghost before = entries@;
            entries.push(SessionEntry::Active(s));
            proof {
                assert(listed_sessions(given).take(k + 1) =~= listed_sessions(given).take(
                    k as int,
                ).push(session_view(s)));
                assert(entries_view(entries@) =~= entries_view(before).push(session_view(s)));
            }
            k = k + 1;
        }
        assert(listed_sessions(given).take(n as int) =~= listed_sessions(given));
        let ghost prefix = entries_view(entries@);
        let mut dead = resurrectable_sessions;
        let ghost dead_all = dead@;
        let total = dead.len();
        let mut m: usize = 0;
        while dead.len() > 0
            invariant
                total == dead_all.len(),
                m + dead@.len() == total,
                forall|j: int| 0 <= j < dead@.len() ==> #[trigger] dead@[j] == dead_all[m + j],
                entries_view(entries@) == prefix + listed_dead(dead_all).take(m as int),
            decreases dead.len(),
        {
            let (name, duration) = dead.remove(0);
            let ghost before = entries@;
            entries.push(SessionEntry::Dead { name, duration });
            proof {
                assert(listed_dead(dead_all).take(m + 1) =~= listed_dead(dead_all).take(
                    m as int,
                ).push(EntryView::Dead { name: name@, duration }));
                assert(entries_view(entries@) =~= entries_view(before).push(
                    EntryView::Dead { name: name@, duration },
                ));
            }
            m = m + 1;
        }
        assert(listed_dead(dead_all).take(m as int) =~= listed_dead(dead_all));
        assert(sessions@.len() == 0);
        let entries = sort_entries_by_name(entries);
        // Compare with the current listing.
        let mut unchanged = self.entries.len() == entries.len();
        let len = entries.len();
        let mut j: usize = 0;
        while unchanged && j < len
            invariant
                len == entries@.len(),
                unchanged ==> self.entries@.len() == len,
                j <= len,
                unchanged ==> forall|q: int|
                    0 <= q < j ==> same_entry(#[trigger] self.entries@[q]@, entries@[q]@),
                !unchanged ==> !same_listing(entries_view(self.entries@), entries_view(entries@)),
            decreases len - j,
        {
            let same = match (&self.entries[j], &entries[j]) {
                (SessionEntry::Active(a), SessionEntry::Active(b)) => {
                    crate::text::str_eq(a.name.as_str(), b.name.as_str())
                        && a.is_current_session == b.is_current_session
                },
                (SessionEntry::Dead { name: a, .. }, SessionEntry::Dead { name: b, .. }) => {
                    crate::text::str_eq(a.as_str(), b.as_str())
                },
                _ => false,
            };
            if !same {
                assert(!same_entry(self.entries@[j as int]@, entries@[j as int]@));
                assert(entries_view(self.entries@)[j as int] == self.entries@[j as int]@);
                assert(entries_view(entries@)[j as int] == entries@[j as int]@);
                unchanged = false;
            }
            j = j + 1;
        }
        if unchanged {
            assert forall|q: int| 0 <= q < len implies same_entry(
                #[trigger] entries_view(self.entries@)[q],
                entries_view(entries@)[q],
            ) by {
                assert(same_entry(self.entries@[q]@, entries@[q]@));
            }
            assert(same_listing(entries_view(self.entries@), entries_view(entries@)));
            return layouts_changed;
        }
        self.entries = entries;
        true
    }
}

/// Whether two entries agree on kind, name, and (for running sessions)
/// which one is current.
pub open spec fn same_entry(a: EntryView, b: EntryView) -> bool {
    match (a, b) {
        (
            EntryView::Active { name: n1, is_current: c1, .. },
            EntryView::Active { name: n2, is_current: c2, .. },
        ) => n1 == n2 && c1 == c2,
        (EntryView::Dead { name: n1, .. }, EntryView::Dead { name: n2, .. }) => n1 == n2,
        _ => false,
    }
}

proof fn lemma_first_current(s: Seq<SessionInfo>, i: int)
    requires
        0 <= i <= s.len(),
        forall|j: int| 0 <= j < i ==> !s[j].is_current_session,
        i == s.len() || s[i].is_current_session,
    ensures
        first_current(s) == i,
    decreases s.len(),
{
    if s.len() > 0 && i > 0 {
        let t = s.drop_first();
        assert forall|j: int| 0 <= j < i - 1 implies !t[j].is_current_session by {
            assert(t[j] == s[j + 1]);
        }
        lemma_first_current(t, i - 1);
    }
}

// ---------------------------------------------------------------------------
// Laws of the listing order
// ---------------------------------------------------------------------------
proof fn lemma_insert_by_name_multiset(s: Seq<EntryView>, x: EntryView)
    ensures
        insert_by_name(s, x).to_multiset() == s.to_multiset().insert(x),
        insert_by_name(s, x).len() == s.len() + 1,
    decreases s.len(),
{
    broadcast use vstd::seq_lib::group_to_multiset_ensures;

    if s.len() == 0 {
        assert(seq![x] =~= Seq::<EntryView>::empty().push(x));
    } else if lex_lt(x.name(), s.last().name()) {
        let t = s.drop_last();
        lemma_insert_by_name_multiset(t, x);
        assert(t.push(s.last()) =~= s);
        assert(insert_by_name(s, x).to_multiset() =~= s.to_multiset().insert(x));
    }
}

proof fn lemma_insert_by_name_sorted(s: Seq<EntryView>, x: EntryView)
    requires
        sorted_by_name(s),
    ensures
        sorted_by_name(insert_by_name(s, x)),
    decreases s.len(),
{
    broadcast use vstd::seq_lib::group_to_multiset_ensures;

    let r = insert_by_name(s, x);
    if s.len() == 0 {
    } else if lex_lt(x.name(), s.last().name()) {
        let t = s.drop_last();
        let last = s.last();
        let u = insert_by_name(t, x);
        lemma_insert_by_name_sorted(t, x);
        lemma_insert_by_name_multiset(t, x);
        assert(r == u.push(last));
        assert forall|i: int, j: int| 0 <= i < j < r.len() implies !lex_lt(
            #[trigger] r[j].name(),
            #[trigger] r[i].name(),
        ) by {
            if j == r.len() - 1 {
                let e = u[i];
                assert(u.contains(e));
                assert(u.to_multiset().count(e) > 0);
                if e == x {
                    if lex_lt(last.name(), x.name()) {
                        crate::text::lemma_lex_lt_transitive(x.name(), last.name(), x.name());
                        crate::text::lemma_lex_lt_irreflexive(x.name());
                    }
                } else {
                    assert(t.to_multiset().count(e) > 0);
                    assert(t.contains(e));
                    let k = choose|k: int| 0 <= k < t.len() && t[k] == e;
                    assert(s[k] == e);
                    assert(s[s.len() - 1] == last);
                }
            } else {
                assert(r[i] == u[i]);
                assert(r[j] == u[j]);
            }
        }
    } else {
        let last = s.last();
        assert forall|i: int, j: int| 0 <= i < j < r.len() implies !lex_lt(
            #[trigger] r[j].name(),
            #[trigger] r[i].name(),
        ) by {
            if j == r.len() - 1 {
                assert(r[j] == x);
                assert(r[i] == s[i]);
                if lex_lt(x.name(), s[i].name()) {
                    if i < s.len() - 1 {
                        assert(!lex_lt(s[s.len() - 1].name(), s[i].name()));
                        crate::text::lemma_lex_lt_total(s[i].name(), last.name());
                        if s[i].name() != last.name() {
                            crate::text::lemma_lex_lt_transitive(x.name(), s[i].name(), last.name());
                        }
                    }
                }
            } else {
                assert(r[i] == s[i]);
                assert(r[j] == s[j]);
            }
        }
    }
}

/// Sorting by name yields a sorted listing holding exactly the entries it
/// was given.
pub proof fn lemma_sort_by_name(s: Seq<EntryView>)
    ensures
        sorted_by_name(sort_by_name(s)),
        sort_by_name(s).to_multiset() == s.to_multiset(),
        sort_by_name(s).len() == s.len(),
    decreases s.len(),
{
    broadcast use vstd::seq_lib::group_to_multiset_ensures;

    if s.len() > 0 {
        let t = s.drop_last();
        lemma_sort_by_name(t);
        lemma_insert_by_name_sorted(sort_by_name(t), s.last());
        lemma_insert_by_name_multiset(sort_by_name(t), s.last());
        assert(t.push(s.last()) =~= s);
    }
}

/// The store lists every session of a snapshot exactly once, running and
/// dead alike, alphabetically by name.
pub proof fn law_listing_sorted_and_complete(
    sessions: Seq<SessionInfo>,
    dead: Seq<(String, Duration)>,
)
    ensures
        sorted_by_name(unified_listing(sessions, dead)),
        unified_listing(sessions, dead).to_multiset() == (listed_sessions(sessions) + listed_dead(
            dead,
        )).to_multiset(),
        unified_listing(sessions, dead).len() == sessions.len() + dead.len(),
{
    lemma_sort_by_name(listed_sessions(sessions) + listed_dead(dead));
}

/// A snapshot applied a second time changes nothing: whether or not the
/// first update changed the store, the listing it leaves agrees with the
/// snapshot's listing, so the second update reports no change.
pub proof fn law_update_idempotent(before: Seq<EntryView>, listing: Seq<EntryView>)
    ensures
        same_listing(
            if same_listing(before, listing) {
                before
            } else {
                listing
            },
            listing,
        ),
{
    assert forall|i: int| 0 <= i < listing.len() implies same_entry(
        #[trigger] listing[i],
        listing[i],
    ) by {
        match listing[i] {
            EntryView::Active { .. } => {},
            EntryView::Dead { .. } => {},
        }
    }
}

/// What the listing shows of an entry: whether it is running, and its name.
pub open spec fn kind_name(e: EntryView) -> (bool, Seq<char>) {
    (e is Active, e.name())
}

/// The kinds and names of a listing.
pub open spec fn kinds_names(s: Seq<EntryView>) -> Seq<(bool, Seq<char>)> {
    s.map_values(|e: EntryView| kind_name(e))
}

/// The kinds and names a snapshot brings: each running session, then each
/// dead one.
pub open spec fn snapshot_kinds_names(sessions: Seq<SessionInfo>, dead: Seq<(String, Duration)>) -> Seq<
    (bool, Seq<char>),
> {
    sessions.map_values(|s: SessionInfo| (true, s.name@)) + dead.map_values(
        |d: (String, Duration)| (false, d.0@),
    )
}

proof fn lemma_kinds_names_push(s: Seq<EntryView>, x: EntryView)
    ensures
        kinds_names(s.push(x)) == kinds_names(s).push(kind_name(x)),
{
    assert(kinds_names(s.push(x)) =~= kinds_names(s).push(kind_name(x)));
}

proof fn lemma_insert_by_name_kinds(s: Seq<EntryView>, x: EntryView)
    ensures
        kinds_names(insert_by_name(s, x)).to_multiset() == kinds_names(s).to_multiset().insert(
            kind_name(x),
        ),
    decreases s.len(),
{
    broadcast use vstd::seq_lib::group_to_multiset_ensures;

    if s.len() == 0 {
        assert(seq![x] =~= Seq::<EntryView>::empty().push(x));
        lemma_kinds_names_push(Seq::<EntryView>::empty(), x);
        assert(kinds_names(Seq::<EntryView>::empty()) =~= Seq::<(bool, Seq<char>)>::empty());
    } else if lex_lt(x.name(), s.last().name()) {
        let t = s.drop_last();
        lemma_insert_by_name_kinds(t, x);
        lemma_kinds_names_push(insert_by_name(t, x), s.last());
        lemma_kinds_names_push(t, s.last());
        assert(t.push(s.last()) =~= s);
        assert(kinds_names(insert_by_name(s, x)).to_multiset() =~= kinds_names(
            s,
        ).to_multiset().insert(kind_name(x)));
    } else {
        lemma_kinds_names_push(s, x);
    }
}

proof fn lemma_sort_by_name_kinds(s: Seq<EntryView>)
    ensures
        kinds_names(sort_by_name(s)).to_multiset() == kinds_names(s).to_multiset(),
    decreases s.len(),
{
    broadcast use vstd::seq_lib::group_to_multiset_ensures;

    if s.len() > 0 {
        let t = s.drop_last();
        lemma_sort_by_name_kinds(t);
        lemma_insert_by_name_kinds(sort_by_name(t), s.last());
        lemma_kinds_names_push(t, s.last());
        assert(t.push(s.last()) =~= s);
    } else {
        assert(sort_by_name(s) == s);
    }
}

/// After an update the store lists each session of the snapshot exactly
/// once, running and dead alike, with its kind and name, sorted by name:
/// whether the update kept the entries it held (they agree with the
/// snapshot's listing in kind and name) or took the snapshot's listing.
pub proof fn law_update_lists_each_session_once(
    before: Seq<EntryView>,
    sessions: Seq<SessionInfo>,
    dead: Seq<(String, Duration)>,
)
    ensures
        ({
            let listing = unified_listing(sessions, dead);
            let after = if same_listing(before, listing) {
                before
            } else {
                listing
            };
            &&& sorted_by_name(after)
            &&& kinds_names(after).to_multiset() == snapshot_kinds_names(sessions, dead).to_multiset()
        }),
{
    let given = listed_sessions(sessions) + listed_dead(dead);
    let listing = unified_listing(sessions, dead);
    lemma_sort_by_name(given);
    lemma_sort_by_name_kinds(given);
    assert(kinds_names(given) =~= snapshot_kinds_names(sessions, dead));
    if same_listing(before, listing) {
        assert forall|i: int| 0 <= i < before.len() implies #[trigger] kind_name(before[i])
            == kind_name(listing[i]) by {
            assert(same_entry(before[i], listing[i]));
        }
        assert(kinds_names(before) =~= kinds_names(listing));
        assert forall|i: int, j: int| 0 <= i < j < before.len() implies !lex_lt(
            #[trigger] before[j].name(),
            #[trigger] before[i].name(),
        ) by {
            assert(same_entry(before[i], listing[i]));
            assert(same_entry(before[j], listing[j]));
            assert(!lex_lt(listing[j].name(), listing[i].name()));
        }
    }
}

} // verus!
