use zellij_switcher::handlers::lifecycle::handle_load;
use zellij_switcher::types::PluginAction;

#[test]
fn load_returns_permissions_and_subscribe() {
    let actions = handle_load();

    assert_eq!(actions, vec![PluginAction::Subscribe, PluginAction::RequestPermissions]);
}
