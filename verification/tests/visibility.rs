use zellij_switcher::handlers::visibility::{active_tab_position, handle_visible};
use zellij_switcher::host::{PaneId, TabInfo};
use zellij_switcher::types::PluginAction;

fn make_tab_info(position: usize, active: bool) -> TabInfo {
    TabInfo { position, active }
}

#[test]
fn active_tab_position_finds_active() {
    let tabs = vec![make_tab_info(0, false), make_tab_info(1, true)];

    assert_eq!(active_tab_position(&tabs), Some(1));
}

#[test]
fn active_tab_position_none_when_empty() {
    assert_eq!(active_tab_position(&[]), None);
}

#[test]
fn active_tab_position_none_when_no_active() {
    let tabs = vec![make_tab_info(0, false), make_tab_info(1, false)];

    assert_eq!(active_tab_position(&tabs), None);
}

#[test]
fn visible_with_pane_and_tab_moves_and_shows() {
    let pane_id = PaneId::Plugin(42);
    let result = handle_visible(true, Some(pane_id), Some(2));

    assert!(result.render);
    assert_eq!(
        result.actions,
        vec![PluginAction::MoveToTab(PaneId::Plugin(42), 2), PluginAction::ShowSelf]
    );
}

#[test]
fn visible_without_pane_id_still_renders() {
    let result = handle_visible(true, None, Some(2));

    assert!(result.render);
    assert!(result.actions.is_empty());
}

#[test]
fn visible_without_tab_position_still_renders() {
    let pane_id = PaneId::Plugin(42);
    let result = handle_visible(true, Some(pane_id), None);

    assert!(result.render);
    assert!(result.actions.is_empty());
}

#[test]
fn invisible_does_not_render() {
    let pane_id = PaneId::Plugin(42);
    let result = handle_visible(false, Some(pane_id), Some(2));

    assert!(!result.render);
    assert!(result.actions.is_empty());
}

// The first active tab wins; its position is reported, not its index.
#[test]
fn active_tab_position_first_active_by_position() {
    let tabs = vec![make_tab_info(7, false), make_tab_info(3, true), make_tab_info(5, true)];

    assert_eq!(active_tab_position(&tabs), Some(3));
}
