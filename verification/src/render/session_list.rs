use vstd::prelude::*;

use crate::config::{ConfigView, PluginConfig};
use crate::handlers::normal::NormalHandler;
use crate::render::draw::{prints_view, PrintCommand, PrintView};
use crate::render::list_helpers::{items_view, list_prints, render_list, ItemView, ListItem, ListMarker};
use crate::session_store::{entries_view, EntryView, SessionEntry, SessionStore};

verus! {

/// The marker shown after the current session.
pub const ACTIVE_MARKER: &'static str = " (active)";

/// The marker shown after dead sessions.
pub const DEAD_MARKER: &'static str = " (dead)";

/// The message shown when there are no sessions.
pub const NO_SESSIONS_MESSAGE: &'static str = "No sessions found";

/// The list item of a session: the current running session is marked
/// "(active)", a dead session "(dead)".
pub open spec fn session_item(entry: EntryView, cfg: ConfigView) -> ItemView {
    match entry {
        EntryView::Active { name, is_current, .. } => ItemView {
            name,
            marker: if is_current {
                Some((ACTIVE_MARKER@, cfg.active_marker_color))
            } else {
                None
            },
        },
        EntryView::Dead { name, .. } => ItemView {
            name,
            marker: Some((DEAD_MARKER@, cfg.dead_marker_color)),
        },
    }
}

/// The list items of the sessions, in the store's order: item `i` shows
/// entry `i`, the one that the highlight, the quick switch and Enter act on.
pub open spec fn session_items(entries: Seq<EntryView>, cfg: ConfigView) -> Seq<ItemView> {
    entries.map_values(|e: EntryView| session_item(e, cfg))
}

/// Converts active and resurrectable sessions into [`ListItem`]s, marking
/// the current session as "(active)" and dead sessions as "(dead)".
pub fn build_session_items<'a>(store: &'a SessionStore, config: &PluginConfig) -> (items: Vec<
    ListItem<'a>,
>)
    ensures
        items_view(items@) == session_items(entries_view(store.entries@), config@),
{
    let ghost expected = session_items(entries_view(store.entries@), config@);
    let n = store.entries.len();
    let mut items: Vec<ListItem<'a>> = Vec::new();
    let mut i: usize = 0;
    while i < n
        invariant
            n == store.entries@.len(),
            expected == session_items(entries_view(store.entries@), config@),
            i <= n,
            items_view(items@) == expected.take(i as int),
        decreases n - i,
    {
        let ghost before = items@;
        let item = match &store.entries[i] {
            SessionEntry::Active(s) => {
                let marker = if s.is_current_session {
                    Some(ListMarker { text: ACTIVE_MARKER, color: config.active_marker_color })
                } else {
                    None
                };
                ListItem { name: s.name.as_str(), marker }
            },
            SessionEntry::Dead { name, .. } => ListItem {
                name: name.as_str(),
                marker: Some(ListMarker { text: DEAD_MARKER, color: config.dead_marker_color }),
            },
        };
        items.push(item);
        proof {
            assert(expected[i as int] == session_item(store.entries@[i as int]@, config@));
            assert(items_view(items@) =~= items_view(before).push(expected[i as int]));
            assert(expected.take(i + 1) =~= expected.take(i as int).push(expected[i as int]));
        }
        i = i + 1;
    }
    assert(expected.take(n as int) =~= expected);
    items
}

/// What the session list prints.
pub open spec fn session_list_prints(
    entries: Seq<EntryView>,
    selected_index: usize,
    cfg: ConfigView,
    rows: usize,
    cols: usize,
) -> Seq<PrintView> {
    list_prints(session_items(entries, cfg), selected_index, NO_SESSIONS_MESSAGE@, cfg, rows, cols)
}

/// Renders the session list for Normal, NewSession, and RenameSession modes.
pub fn render_session_list(
    store: &SessionStore,
    normal: &NormalHandler,
    config: &PluginConfig,
    rows: usize,
    cols: usize,
) -> (out: Vec<PrintCommand>)
    ensures
        prints_view(out@) == session_list_prints(
            entries_view(store.entries@),
            normal.selected_index,
            config@,
            rows,
            cols,
        ),
{
    let items = build_session_items(store, config);
    render_list(items.as_slice(), normal.selected_index, NO_SESSIONS_MESSAGE, config, rows, cols)
}

/// Row `i` of the session list shows store entry `i`, by name: the current
/// running session marked " (active)" in the active-marker color, another
/// running session unmarked, a dead session marked " (dead)" in the
/// dead-marker color.
pub proof fn law_rows_show_entries(entries: Seq<EntryView>, cfg: ConfigView)
    ensures
        session_items(entries, cfg).len() == entries.len(),
        forall|i: int|
            0 <= i < entries.len() ==> {
                let item = #[trigger] session_items(entries, cfg)[i];
                &&& item.name == entries[i].name()
                &&& item.marker == match entries[i] {
                    EntryView::Active { is_current, .. } => if is_current {
                        Some((" (active)"@, cfg.active_marker_color))
                    } else {
                        None
                    },
                    EntryView::Dead { .. } => Some((" (dead)"@, cfg.dead_marker_color)),
                }
            },
{
}

} // verus!
