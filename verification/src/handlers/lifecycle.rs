use vstd::prelude::*;

use crate::types::{actions_view, ActionView, PluginAction};

verus! {

/// Returns the actions needed during plugin load: subscribing to events,
/// then requesting permissions. Order matters — if permissions are
/// already cached, the host fires the permission result immediately, so
/// the subscription must be in place first or the event is dropped and the
/// plugin never learns it can pull session data.
pub fn handle_load() -> (actions: Vec<PluginAction>)
    ensures
        actions_view(actions@) == seq![ActionView::Subscribe, ActionView::RequestPermissions],
{
    let mut actions = Vec::new();
    actions.push(PluginAction::Subscribe);
    actions.push(PluginAction::RequestPermissions);
    assert(actions_view(actions@) =~= seq![ActionView::Subscribe, ActionView::RequestPermissions]);
    actions
}

} // verus!
