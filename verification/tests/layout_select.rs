use zellij_switcher::handlers::layout_select::LayoutSelectHandler;
use zellij_switcher::host::{BareKey, LayoutInfo};
use zellij_switcher::types::{ModeTransition, PluginAction};

#[test]
fn layout_select_j_moves_down() {
    let layouts = vec![
        LayoutInfo::BuiltIn("default".to_string()),
        LayoutInfo::BuiltIn("compact".to_string()),
    ];
    let mut handler = LayoutSelectHandler::default();
    let result = handler.handle_key(BareKey::Char('j'), &layouts);

    assert!(result.render);
    assert!(result.actions.is_empty());
    assert_eq!(handler.selected_index, 1);
}

#[test]
fn layout_select_j_at_bottom_stays() {
    let layouts = vec![LayoutInfo::BuiltIn("default".to_string())];
    let mut handler = LayoutSelectHandler::default();
    let result = handler.handle_key(BareKey::Char('j'), &layouts);

    assert!(result.render);
    assert_eq!(handler.selected_index, 0);
}

#[test]
fn layout_select_k_moves_up() {
    let layouts = vec![
        LayoutInfo::BuiltIn("default".to_string()),
        LayoutInfo::BuiltIn("compact".to_string()),
    ];
    let mut handler = LayoutSelectHandler { selected_index: 1, ..Default::default() };
    let result = handler.handle_key(BareKey::Char('k'), &layouts);

    assert!(result.render);
    assert_eq!(handler.selected_index, 0);
}

#[test]
fn layout_select_k_at_top_stays() {
    let layouts = vec![LayoutInfo::BuiltIn("default".to_string())];
    let mut handler = LayoutSelectHandler::default();
    let result = handler.handle_key(BareKey::Char('k'), &layouts);

    assert!(result.render);
    assert_eq!(handler.selected_index, 0);
}

#[test]
fn enter_creates_session() {
    let layouts = vec![LayoutInfo::BuiltIn("default".to_string())];
    let mut handler =
        LayoutSelectHandler { session_name: "my-session".to_string(), ..Default::default() };
    let result = handler.handle_key(BareKey::Enter, &layouts);

    assert!(!result.render);
    assert_eq!(
        result.actions,
        vec![
            PluginAction::SwitchSessionWithLayout(
                "my-session".to_string(),
                LayoutInfo::BuiltIn("default".to_string()),
            ),
            PluginAction::HideSelf,
        ]
    );
}

#[test]
fn enter_no_layouts_does_nothing() {
    let mut handler = LayoutSelectHandler::default();
    let result = handler.handle_key(BareKey::Enter, &[]);

    assert!(!result.render);
    assert!(result.actions.is_empty());
}

#[test]
fn number_key_selects_layout() {
    let layouts = vec![
        LayoutInfo::BuiltIn("default".to_string()),
        LayoutInfo::BuiltIn("compact".to_string()),
        LayoutInfo::BuiltIn("disable-status-bar".to_string()),
    ];
    let mut handler =
        LayoutSelectHandler { session_name: "my-session".to_string(), ..Default::default() };
    let result = handler.handle_key(BareKey::Char('2'), &layouts);

    assert!(!result.render);
    assert_eq!(handler.selected_index, 1);
    assert_eq!(
        result.actions,
        vec![
            PluginAction::SwitchSessionWithLayout(
                "my-session".to_string(),
                LayoutInfo::BuiltIn("compact".to_string()),
            ),
            PluginAction::HideSelf,
        ]
    );
}

#[test]
fn number_key_beyond_layouts_does_nothing() {
    let layouts = vec![LayoutInfo::BuiltIn("default".to_string())];
    let mut handler = LayoutSelectHandler::default();
    let result = handler.handle_key(BareKey::Char('5'), &layouts);

    assert!(!result.render);
    assert!(result.actions.is_empty());
    assert_eq!(handler.selected_index, 0);
}

#[test]
fn esc_returns_to_normal() {
    let mut handler =
        LayoutSelectHandler { session_name: "leftover".to_string(), selected_index: 2 };
    let result = handler.handle_key(BareKey::Esc, &[]);

    assert!(result.render);
    assert!(result.actions.is_empty());
    assert!(matches!(result.transition, Some(ModeTransition::Normal)));
    assert!(handler.session_name.is_empty());
    assert_eq!(handler.selected_index, 0);
}

// Picking a layout hands the typed name over: the handler keeps no name.
#[test]
fn enter_takes_session_name() {
    let layouts = vec![
        LayoutInfo::BuiltIn("default".to_string()),
        LayoutInfo::File("/tmp/mine.kdl".to_string()),
    ];
    let mut handler = LayoutSelectHandler { session_name: "work".to_string(), selected_index: 1 };
    let result = handler.handle_key(BareKey::Enter, &layouts);

    assert_eq!(
        result.actions,
        vec![
            PluginAction::SwitchSessionWithLayout(
                "work".to_string(),
                LayoutInfo::File("/tmp/mine.kdl".to_string()),
            ),
            PluginAction::HideSelf,
        ]
    );
    assert!(handler.session_name.is_empty());
    assert_eq!(handler.selected_index, 1);
}

// Starting a selection resets the highlight and takes the new name.
#[test]
fn start_resets_selection() {
    let mut handler = LayoutSelectHandler { session_name: "old".to_string(), selected_index: 3 };
    handler.start("fresh".to_string());
    assert_eq!(handler.session_name, "fresh");
    assert_eq!(handler.selected_index, 0);
}

// The down arrow and the up arrow move like j and k.
#[test]
fn layout_select_arrows_move() {
    let layouts = vec![
        LayoutInfo::BuiltIn("a".to_string()),
        LayoutInfo::BuiltIn("b".to_string()),
        LayoutInfo::BuiltIn("c".to_string()),
    ];
    let mut handler = LayoutSelectHandler::default();
    handler.handle_key(BareKey::Down, &layouts);
    handler.handle_key(BareKey::Down, &layouts);
    assert_eq!(handler.selected_index, 2);
    handler.handle_key(BareKey::Up, &layouts);
    assert_eq!(handler.selected_index, 1);
}

// The digit 0 and unhandled keys do nothing.
#[test]
fn zero_key_does_nothing() {
    let layouts = vec![LayoutInfo::BuiltIn("default".to_string())];
    let mut handler = LayoutSelectHandler { session_name: "s".to_string(), selected_index: 0 };
    let result = handler.handle_key(BareKey::Char('0'), &layouts);
    assert!(!result.render);
    assert!(result.actions.is_empty());
    assert_eq!(handler.session_name, "s");
}
