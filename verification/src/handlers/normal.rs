use vstd::prelude::*;

use crate::host::BareKey;
use crate::session_store::{entries_view, EntryView, SessionStore};
use crate::text::str_eq;
use crate::types::{
    plain_result, ActionView, HandlerResult, ModeTransition, PluginAction, ResultView,
    SelectedSession, TransitionView,
};

verus! {

/// The hint shown when renaming is asked for on a session that is not the
/// current one.
pub const RENAME_HINT: &'static str = "Can only rename current session";

/// Handles key events in Normal mode (session list browsing).
pub struct NormalHandler {
    /// Index of the currently highlighted session in the unified list.
    pub selected_index: usize,
    /// A transient hint message shown to the user (cleared on next key press).
    pub hint_message: Option<&'static str>,
}

impl Default for NormalHandler {
    fn default() -> (res: Self)
        ensures
            res.selected_index == 0,
            res.hint_message is None,
    {
        NormalHandler { selected_index: 0, hint_message: None }
    }
}

/// `index` brought within a list of `total` entries.
pub open spec fn clamped(index: usize, total: usize) -> usize {
    if total == 0 {
        0
    } else if index >= total {
        (total - 1) as usize
    } else {
        index
    }
}

/// Whether an index is a valid highlight for a list of `total` entries (an
/// empty list is highlighted at 0).
pub open spec fn index_in_bounds(index: usize, total: nat) -> bool {
    index < total || (total == 0 && index == 0)
}

/// The position of the first entry called `name`, if any.
pub open spec fn position_of(entries: Seq<EntryView>, name: Seq<char>) -> Option<nat>
    decreases entries.len(),
{
    if entries.len() == 0 {
        None
    } else if entries[0].name() == name {
        Some(0)
    } else {
        match position_of(entries.drop_first(), name) {
            Some(p) => Some(p + 1),
            None => None,
        }
    }
}

/// The digit keys `1`–`9` select the entry at `digit - 1`.
pub open spec fn quick_index(key: BareKey) -> Option<nat> {
    match key {
        BareKey::Char(c) => if '1' <= c && c <= '9' {
            Some(((c as u32) - 0x31) as nat)
        } else {
            None
        },
        _ => None,
    }
}

/// Whether a key moves the highlight down.
pub open spec fn is_down_key(key: BareKey) -> bool {
    key == BareKey::Char('j') || key == BareKey::Down
}

/// Whether a key moves the highlight up.
pub open spec fn is_up_key(key: BareKey) -> bool {
    key == BareKey::Char('k') || key == BareKey::Up
}

/// Switch to a session, then hide the plugin.
pub open spec fn switch_result(name: Seq<char>) -> ResultView {
    plain_result(false).with_action(ActionView::SwitchSession(name)).with_action(
        ActionView::HideSelf,
    )
}

/// Whether the entry is the running session the plugin lives in.
pub open spec fn is_current_entry(e: EntryView) -> bool {
    e matches EntryView::Active { is_current, .. } && is_current
}

/// The highlight after a key press in Normal mode.
pub open spec fn normal_index_after(key: BareKey, index: usize, entries: Seq<EntryView>) -> usize {
    let total = entries.len();
    if is_down_key(key) {
        if total > 0 && index < total - 1 {
            (index + 1) as usize
        } else {
            index
        }
    } else if is_up_key(key) {
        if index > 0 {
            (index - 1) as usize
        } else {
            index
        }
    } else if quick_index(key) is Some && quick_index(key)->0 < total {
        quick_index(key)->0 as usize
    } else {
        index
    }
}

/// Whether a key press in Normal mode leaves the rename hint showing.
pub open spec fn normal_sets_hint(key: BareKey, index: usize, entries: Seq<EntryView>) -> bool {
    key == BareKey::Char('r') && index < entries.len() && !is_current_entry(entries[index as int])
}

/// What a key press in Normal mode yields, given the highlight before it and
/// whether a hint was showing.
pub open spec fn normal_key_result(
    key: BareKey,
    index: usize,
    had_hint: bool,
    entries: Seq<EntryView>,
) -> ResultView {
    let total = entries.len();
    if key == BareKey::Esc {
        plain_result(false).with_action(ActionView::HideSelf)
    } else if is_down_key(key) || is_up_key(key) {
        plain_result(true)
    } else if key == BareKey::Enter {
        if index < total {
            switch_result(entries[index as int].name())
        } else {
            plain_result(false)
        }
    } else if quick_index(key) is Some {
        if quick_index(key)->0 < total {
            switch_result(entries[quick_index(key)->0 as int].name())
        } else {
            plain_result(false)
        }
    } else if key == BareKey::Char('n') {
        plain_result(true).with_transition(TransitionView::NewSession)
    } else if key == BareKey::Char('r') {
        if index < total {
            if is_current_entry(entries[index as int]) {
                plain_result(true).with_transition(TransitionView::RenameSession)
            } else {
                plain_result(true)
            }
        } else {
            plain_result(had_hint)
        }
    } else if key == BareKey::Char('d') {
        if index < total {
            match entries[index as int] {
                EntryView::Active { name, .. } => plain_result(true).with_action(
                    ActionView::KillSessions(seq![name]),
                ),
                EntryView::Dead { name, .. } => plain_result(true).with_action(
                    ActionView::DeleteDeadSession(name),
                ),
            }
        } else {
            plain_result(had_hint)
        }
    } else {
        plain_result(had_hint)
    }
}

impl NormalHandler {
    /// Ensures `selected_index` is within bounds for the given total session count.
    pub fn clamp_index(&mut self, total: usize)
        ensures
            final(self).selected_index == clamped(old(self).selected_index, total),
            final(self).hint_message == old(self).hint_message,
    {
        if total == 0 {
            self.selected_index = 0;
        } else if self.selected_index >= total {
            self.selected_index = total - 1;
        }
    }

    /// Updates `selected_index` to track a session by name after a reorder.
    /// Searches the unified entries list. Falls back to `clamp_index()` if
    /// the session is no longer present.
    pub fn preserve_selection(&mut self, name: &str, store: &SessionStore)
        ensures
            ({
                let entries = entries_view(store.entries@);
                match position_of(entries, name@) {
                    Some(p) => final(self).selected_index == p,
                    None => final(self).selected_index == clamped(
                        old(self).selected_index,
                        entries.len() as usize,
                    ),
                }
            }),
            final(self).hint_message == old(self).hint_message,
    {
        let ghost entries = entries_view(store.entries@);
        let n = store.entries.len();
        let mut i: usize = 0;
        assert(entries.skip(0) =~= entries);
        while i < n
            invariant
                n == store.entries@.len(),
                entries == entries_view(store.entries@),
                entries.len() == n,
                self.selected_index == old(self).selected_index,
                self.hint_message == old(self).hint_message,
                i <= n,
                position_of(entries, name@) == match position_of(entries.skip(i as int), name@) {
                    Some(p) => Some((p + i) as nat),
                    None => None,
                },
            decreases n - i,
        {
            assert(entries.skip(i as int).drop_first() =~= entries.skip(i + 1));
            assert(entries.skip(i as int)[0] == store.entries@[i as int]@);
            if str_eq(store.entries[i].name(), name) {
                self.selected_index = i;
                return;
            }
            i = i + 1;
        }
        assert(entries.skip(n as int).len() == 0);
        self.clamp_index(store.total_count());
    }

    /// Processes a key press in Normal mode, returning navigation changes,
    /// session operations, or mode transitions.
    pub fn handle_key(&mut self, key: BareKey, store: &SessionStore) -> (res: HandlerResult)
        ensures
            ({
                let entries = entries_view(store.entries@);
                let index = old(self).selected_index;
                &&& res@ == normal_key_result(key, index, old(self).hint_message is Some, entries)
                &&& final(self).selected_index == normal_index_after(key, index, entries)
                &&& normal_sets_hint(key, index, entries) ==> final(self).hint_message == Some(
                    RENAME_HINT,
                )
                &&& !normal_sets_hint(key, index, entries) ==> final(self).hint_message is None
            }),
    {
        let had_hint = self.hint_message.take().is_some();
        let ghost entries = entries_view(store.entries@);
        let total = store.total_count();
        match key {
            BareKey::Esc => HandlerResult::no_render().with_action(PluginAction::HideSelf),
            BareKey::Char('j') | BareKey::Down => {
                if total > 0 && self.selected_index < total - 1 {
                    self.selected_index = self.selected_index + 1;
                }
                HandlerResult::render()
            },
            BareKey::Char('k') | BareKey::Up => {
                if self.selected_index > 0 {
                    self.selected_index = self.selected_index - 1;
                }
                HandlerResult::render()
            },
            BareKey::Enter => {
                if let Some(selected) = store.selected_session(self.selected_index) {
                    HandlerResult::no_render().with_action(
                        PluginAction::SwitchSession(selected.name().to_owned()),
                    ).with_action(PluginAction::HideSelf)
                } else {
                    HandlerResult::no_render()
                }
            },
            BareKey::Char(c) if '1' <= c && c <= '9' => {
                let index = (c as u32 - '1' as u32) as usize;
                if index < total {
                    self.selected_index = index;
                    if let Some(selected) = store.selected_session(self.selected_index) {
                        return HandlerResult::no_render().with_action(
                            PluginAction::SwitchSession(selected.name().to_owned()),
                        ).with_action(PluginAction::HideSelf);
                    }
                }
                HandlerResult::no_render()
            },
            BareKey::Char('n') => HandlerResult::render().with_transition(
                ModeTransition::NewSession,
            ),
            BareKey::Char('r') => {
                if let Some(selected) = store.selected_session(self.selected_index) {
                    match selected {
                        SelectedSession::Active(s) if s.is_current_session => {
                            HandlerResult::render().with_transition(ModeTransition::RenameSession)
                        },
                        _ => {
                            self.hint_message = Some(RENAME_HINT);
                            HandlerResult::render()
                        },
                    }
                } else {
                    HandlerResult::render_if(had_hint)
                }
            },
            BareKey::Char('d') => {
                if let Some(selected) = store.selected_session(self.selected_index) {
                    match selected {
                        SelectedSession::Active(s) => {
                            let name = s.name.clone();
                            let names = vec![name];
                            assert(names@.map_values(|s: String| s@) =~= seq![s.name@]);
                            HandlerResult::render().with_action(PluginAction::KillSessions(names))
                        },
                        SelectedSession::Dead(name) => {
                            let name = name.to_owned();
                            HandlerResult::render().with_action(
                                PluginAction::DeleteDeadSession(name),
                            )
                        },
                    }
                } else {
                    HandlerResult::render_if(had_hint)
                }
            },
            _ => HandlerResult::render_if(had_hint),
        }
    }
}

// ---------------------------------------------------------------------------
// Laws
// ---------------------------------------------------------------------------
/// Navigation in Normal mode keeps the highlight within the session list.
pub proof fn law_normal_highlight_in_bounds(key: BareKey, index: usize, entries: Seq<EntryView>)
    requires
        index_in_bounds(index, entries.len()),
    ensures
        index_in_bounds(normal_index_after(key, index, entries), entries.len()),
{
}

/// Moving down and then up returns the highlight to where it was, when there
/// is a session below it.
pub proof fn law_down_then_up(index: usize, entries: Seq<EntryView>)
    requires
        index + 1 < entries.len(),
        entries.len() <= usize::MAX,
    ensures
        normal_index_after(
            BareKey::Up,
            normal_index_after(BareKey::Down, index, entries),
            entries,
        ) == index,
{
    assert(is_down_key(BareKey::Down));
    assert(!is_down_key(BareKey::Up) && is_up_key(BareKey::Up));
}

/// Enter switches to the highlighted session, running or dead (a dead one is
/// resurrected by switching to it), and hides the plugin.
pub proof fn law_enter_switches_to_highlighted(index: usize, had_hint: bool, entries: Seq<EntryView>)
    requires
        index < entries.len(),
    ensures
        normal_key_result(BareKey::Enter, index, had_hint, entries).actions == seq![
            ActionView::SwitchSession(entries[index as int].name()),
            ActionView::HideSelf,
        ],
{
}

/// The position that selection tracking finds holds the session it looks
/// for, and no earlier entry has that name.
pub proof fn law_position_of_finds_name(entries: Seq<EntryView>, name: Seq<char>)
    ensures
        position_of(entries, name) matches Some(p) ==> p < entries.len() && entries[p as int].name()
            == name && forall|q: int| 0 <= q < p ==> (#[trigger] entries[q]).name() != name,
        position_of(entries, name) is None ==> forall|q: int|
            0 <= q < entries.len() ==> (#[trigger] entries[q]).name() != name,
    decreases entries.len(),
{
    if entries.len() > 0 {
        let t = entries.drop_first();
        law_position_of_finds_name(t, name);
        if entries[0].name() != name {
            assert forall|q: int| 1 <= q < entries.len() implies (#[trigger] entries[q]).name()
                == t[q - 1].name() by {}
        }
    }
}

/// Clamping brings any index within the list.
pub proof fn law_clamped_in_bounds(index: usize, total: usize)
    ensures
        index_in_bounds(clamped(index, total), total as nat),
        index_in_bounds(index, total as nat) ==> clamped(index, total) == index,
{
}

/// `d` acts on the highlighted session and on no other: a running session
/// is killed, a dead one deleted, by its name; the highlight stays, the mode
/// stays, and the list is redrawn.
pub proof fn law_d_removes_highlighted(index: usize, had_hint: bool, entries: Seq<EntryView>)
    requires
        index < entries.len(),
    ensures
        ({
            let r = normal_key_result(BareKey::Char('d'), index, had_hint, entries);
            &&& r.actions == match entries[index as int] {
                EntryView::Active { name, .. } => seq![ActionView::KillSessions(seq![name])],
                EntryView::Dead { name, .. } => seq![ActionView::DeleteDeadSession(name)],
            }
            &&& r.transition is None
            &&& r.render
            &&& normal_index_after(BareKey::Char('d'), index, entries) == index
            &&& !normal_sets_hint(BareKey::Char('d'), index, entries)
        }),
{
}

/// `r` opens the rename prompt exactly when the highlighted entry is the
/// running session marked current; on any other entry (dead, or running but
/// not current) it opens nothing and shows the rename hint instead. It never
/// acts on the host.
pub proof fn law_r_renames_only_current(index: usize, had_hint: bool, entries: Seq<EntryView>)
    ensures
        ({
            let r = normal_key_result(BareKey::Char('r'), index, had_hint, entries);
            let on_current = index < entries.len() && (entries[index as int] matches EntryView::Active {
                is_current,
                ..
            } && is_current);
            &&& (r.transition == Some(TransitionView::RenameSession)) <==> on_current
            &&& !on_current ==> r.transition is None
            &&& normal_sets_hint(BareKey::Char('r'), index, entries) <==> (index < entries.len()
                && !on_current)
            &&& r.actions.len() == 0
            &&& normal_index_after(BareKey::Char('r'), index, entries) == index
        }),
{
}

/// The digits `1`–`9` switch to the session at that position in the list
/// (digit `d` picks entry `d - 1`), highlight it, and hide the plugin; a
/// digit past the end of the list does nothing.
pub proof fn law_digit_switches_to_position(c: char, index: usize, had_hint: bool, entries: Seq<EntryView>)
    requires
        '1' <= c <= '9',
    ensures
        ({
            let d = (c as u32 - '1' as u32) as int;
            let r = normal_key_result(BareKey::Char(c), index, had_hint, entries);
            &&& d < entries.len() ==> r.actions == seq![
                ActionView::SwitchSession(entries[d].name()),
                ActionView::HideSelf,
            ]
            &&& d < entries.len() ==> normal_index_after(BareKey::Char(c), index, entries) == d
            &&& d >= entries.len() ==> r.actions.len() == 0 && normal_index_after(
                BareKey::Char(c),
                index,
                entries,
            ) == index
            &&& r.transition is None
            &&& !r.render
        }),
{
}

/// Esc hides the plugin and nothing else; `n` opens the new-session prompt
/// and acts on nothing. Neither moves the highlight.
pub proof fn law_esc_hides_and_n_prompts(index: usize, had_hint: bool, entries: Seq<EntryView>)
    ensures
        normal_key_result(BareKey::Esc, index, had_hint, entries).actions == seq![ActionView::HideSelf],
        normal_key_result(BareKey::Esc, index, had_hint, entries).transition is None,
        normal_key_result(BareKey::Char('n'), index, had_hint, entries).actions.len() == 0,
        normal_key_result(BareKey::Char('n'), index, had_hint, entries).transition == Some(
            TransitionView::NewSession,
        ),
        normal_index_after(BareKey::Esc, index, entries) == index,
        normal_index_after(BareKey::Char('n'), index, entries) == index,
{
}

/// Down moves the highlight one row down and up one row up, stopping at the
/// ends of the list; neither acts on the host.
pub proof fn law_arrows_move_one_row(index: usize, had_hint: bool, entries: Seq<EntryView>)
    requires
        index < entries.len(),
        entries.len() <= usize::MAX,
    ensures
        normal_index_after(BareKey::Down, index, entries) == if index + 1 < entries.len() {
            index + 1
        } else {
            index as int
        },
        normal_index_after(BareKey::Char('j'), index, entries) == normal_index_after(
            BareKey::Down,
            index,
            entries,
        ),
        normal_index_after(BareKey::Up, index, entries) == if index > 0 {
            index - 1
        } else {
            0
        },
        normal_index_after(BareKey::Char('k'), index, entries) == normal_index_after(
            BareKey::Up,
            index,
            entries,
        ),
        normal_key_result(BareKey::Down, index, had_hint, entries).actions.len() == 0,
        normal_key_result(BareKey::Up, index, had_hint, entries).actions.len() == 0,
{
    assert(is_down_key(BareKey::Down) && !is_up_key(BareKey::Down));
    assert(is_up_key(BareKey::Up) && !is_down_key(BareKey::Up));
}

} // verus!
