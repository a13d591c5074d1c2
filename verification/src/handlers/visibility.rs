use vstd::prelude::*;

use crate::host::{PaneId, TabInfo};
use crate::types::{plain_result, ActionView, HandlerResult, PluginAction, ResultView};

verus! {

/// The position of the first active tab, if any.
pub open spec fn active_tab_position_spec(tabs: Seq<TabInfo>) -> Option<usize>
    decreases tabs.len(),
{
    if tabs.len() == 0 {
        None
    } else if tabs[0].active {
        Some(tabs[0].position)
    } else {
        active_tab_position_spec(tabs.drop_first())
    }
}

/// Extracts the 0-indexed position of the currently active tab.
pub fn active_tab_position(tab_infos: &[TabInfo]) -> (res: Option<usize>)
    ensures
        res == active_tab_position_spec(tab_infos@),
{
    let n = tab_infos.len();
    let mut i: usize = 0;
    assert(tab_infos@.skip(0) =~= tab_infos@);
    while i < n
        invariant
            n == tab_infos@.len(),
            i <= n,
            active_tab_position_spec(tab_infos@) == active_tab_position_spec(
                tab_infos@.skip(i as int),
            ),
        decreases n - i,
    {
        assert(tab_infos@.skip(i as int).drop_first() =~= tab_infos@.skip(i + 1));
        if tab_infos[i].active {
            return Some(tab_infos[i].position);
        }
        i = i + 1;
    }
    None
}

/// What a visibility change yields: when the pane becomes visible and both
/// its id and the active tab are known, move it there and show it.
pub open spec fn visible_result(
    visible: bool,
    plugin_pane_id: Option<PaneId>,
    active_tab_position: Option<usize>,
) -> ResultView {
    if visible && plugin_pane_id is Some && active_tab_position is Some {
        plain_result(true).with_action(
            ActionView::MoveToTab(plugin_pane_id->0, active_tab_position->0),
        ).with_action(ActionView::ShowSelf)
    } else {
        plain_result(visible)
    }
}

/// Handles a visibility change event by moving the plugin pane to the
/// active tab when it becomes visible. Returns a render trigger on
/// visibility gain so the UI refreshes.
pub fn handle_visible(
    visible: bool,
    plugin_pane_id: Option<PaneId>,
    active_tab_position: Option<usize>,
) -> (res: HandlerResult)
    ensures
        res@ == visible_result(visible, plugin_pane_id, active_tab_position),
{
    if visible {
        match (plugin_pane_id, active_tab_position) {
            (Some(pane_id), Some(tab_pos)) => {
                return HandlerResult::render().with_action(
                    PluginAction::MoveToTab(pane_id, tab_pos),
                ).with_action(PluginAction::ShowSelf);
            },
            _ => {},
        }
    }
    HandlerResult::render_if(visible)
}

} // verus!
