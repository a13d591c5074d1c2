use std::time::Duration;

use zellij_switcher::handlers::normal::{NormalHandler, RENAME_HINT};
use zellij_switcher::host::{BareKey, SessionInfo};
use zellij_switcher::session_store::{SessionEntry, SessionStore};
use zellij_switcher::types::{ModeTransition, PluginAction};

fn make_session(name: &str, is_current: bool) -> SessionInfo {
    SessionInfo { name: name.to_string(), is_current_session: is_current, available_layouts: Vec::new() }
}

fn make_session_store(active: &[(&str, bool)], dead: &[&str]) -> SessionStore {
    let mut entries: Vec<SessionEntry> = Vec::new();
    for (name, current) in active {
        entries.push(SessionEntry::Active(make_session(name, *current)));
    }
    for name in dead {
        entries.push(SessionEntry::Dead { name: name.to_string(), duration: Duration::from_secs(0) });
    }
    entries.sort_by(|a, b| a.name().cmp(b.name()));
    SessionStore { entries, ..Default::default() }
}

#[test]
fn normal_j_moves_down() {
  let store = make_session_store(&[("s1", true), ("s2", false)], &[]);
  let mut handler = NormalHandler::default();
  let result = handler.handle_key(BareKey::Char('j'), &store);

  assert!(result.render);
  assert!(result.actions.is_empty());
  assert_eq!(handler.selected_index, 1);
}

#[test]
fn normal_j_at_bottom_stays() {
  let store = make_session_store(&[("s1", true), ("s2", false)], &[]);
  let mut handler = NormalHandler {
    selected_index: 1,
    ..Default::default()
  };
  let result = handler.handle_key(BareKey::Char('j'), &store);

  assert!(result.render);
  assert!(result.actions.is_empty());
  assert_eq!(handler.selected_index, 1);
}

#[test]
fn normal_k_moves_up() {
  let store = make_session_store(&[("s1", true), ("s2", false)], &[]);
  let mut handler = NormalHandler {
    selected_index: 1,
    ..Default::default()
  };
  let result = handler.handle_key(BareKey::Char('k'), &store);

  assert!(result.render);
  assert!(result.actions.is_empty());
  assert_eq!(handler.selected_index, 0);
}

#[test]
fn normal_k_at_top_stays() {
  let store = make_session_store(&[("s1", true), ("s2", false)], &[]);
  let mut handler = NormalHandler::default();
  let result = handler.handle_key(BareKey::Char('k'), &store);

  assert!(result.render);
  assert!(result.actions.is_empty());
  assert_eq!(handler.selected_index, 0);
}

#[test]
fn down_arrow_moves_down() {
  let store = make_session_store(&[("s1", true), ("s2", false)], &[]);
  let mut handler = NormalHandler::default();
  let result = handler.handle_key(BareKey::Down, &store);

  assert!(result.render);
  assert_eq!(handler.selected_index, 1);
}

#[test]
fn up_arrow_moves_up() {
  let store = make_session_store(&[("s1", true), ("s2", false)], &[]);
  let mut handler = NormalHandler {
    selected_index: 1,
    ..Default::default()
  };
  let result = handler.handle_key(BareKey::Up, &store);

  assert!(result.render);
  assert_eq!(handler.selected_index, 0);
}

#[test]
fn esc_hides() {
  let store = make_session_store(&[("s1", true)], &[]);
  let mut handler = NormalHandler::default();
  let result = handler.handle_key(BareKey::Esc, &store);

  assert!(!result.render);
  assert_eq!(result.actions, vec![PluginAction::HideSelf]);
}

#[test]
fn enter_switches_active_session() {
  let store = make_session_store(&[("s1", true), ("s2", false)], &[]);
  let mut handler = NormalHandler {
    selected_index: 1,
    ..Default::default()
  };
  let result = handler.handle_key(BareKey::Enter, &store);

  assert!(!result.render);
  assert_eq!(
    result.actions,
    vec![
      PluginAction::SwitchSession("s2".to_string()),
      PluginAction::HideSelf,
    ]
  );
}

#[test]
fn enter_switches_dead_session() {
  let store = make_session_store(&[("s1", true)], &["dead1"]);
  let mut handler = NormalHandler {
    selected_index: 0,
    ..Default::default()
  };
  let result = handler.handle_key(BareKey::Enter, &store);

  assert!(!result.render);
  assert_eq!(
    result.actions,
    vec![
      PluginAction::SwitchSession("dead1".to_string()),
      PluginAction::HideSelf,
    ]
  );
}

#[test]
fn enter_no_sessions_does_nothing() {
  let store = make_session_store(&[], &[]);
  let mut handler = NormalHandler::default();
  let result = handler.handle_key(BareKey::Enter, &store);

  assert!(!result.render);
  assert!(result.actions.is_empty());
}

#[test]
fn quick_switch_valid_index() {
  let store = make_session_store(&[("s1", true), ("s2", false)], &[]);
  let mut handler = NormalHandler::default();
  let result = handler.handle_key(BareKey::Char('2'), &store);

  assert!(!result.render);
  assert_eq!(handler.selected_index, 1);
  assert_eq!(
    result.actions,
    vec![
      PluginAction::SwitchSession("s2".to_string()),
      PluginAction::HideSelf,
    ]
  );
}

#[test]
fn quick_switch_out_of_range() {
  let store = make_session_store(&[("s1", true)], &[]);
  let mut handler = NormalHandler::default();
  let result = handler.handle_key(BareKey::Char('5'), &store);

  assert!(!result.render);
  assert!(result.actions.is_empty());
}

#[test]
fn n_transitions_to_new_session() {
  let store = make_session_store(&[("s1", true)], &[]);
  let mut handler = NormalHandler::default();
  let result = handler.handle_key(BareKey::Char('n'), &store);

  assert!(result.render);
  assert!(result.actions.is_empty());
  assert!(matches!(
    result.transition,
    Some(ModeTransition::NewSession)
  ));
}

#[test]
fn r_transitions_to_rename_for_current() {
  let store = make_session_store(&[("s1", true)], &[]);
  let mut handler = NormalHandler::default();
  let result = handler.handle_key(BareKey::Char('r'), &store);

  assert!(result.render);
  assert!(result.actions.is_empty());
  assert!(matches!(
    result.transition,
    Some(ModeTransition::RenameSession)
  ));
}

#[test]
fn r_shows_hint_for_non_current() {
  let store = make_session_store(&[("s1", false)], &[]);
  let mut handler = NormalHandler::default();
  let result = handler.handle_key(BareKey::Char('r'), &store);

  assert!(result.render);
  assert!(result.actions.is_empty());
  assert!(result.transition.is_none());
  assert!(handler.hint_message.is_some());
}

#[test]
fn d_kills_active_session() {
  let store = make_session_store(&[("s1", true)], &[]);
  let mut handler = NormalHandler::default();
  let result = handler.handle_key(BareKey::Char('d'), &store);

  assert!(result.render);
  assert_eq!(
    result.actions,
    vec![PluginAction::KillSessions(vec!["s1".to_string()])]
  );
}

#[test]
fn d_deletes_dead_session() {
  let store = make_session_store(&[("s1", true)], &["dead1"]);
  let mut handler = NormalHandler {
    selected_index: 0,
    ..Default::default()
  };
  let result = handler.handle_key(BareKey::Char('d'), &store);

  assert!(result.render);
  assert_eq!(
    result.actions,
    vec![PluginAction::DeleteDeadSession("dead1".to_string())]
  );
}

#[test]
fn key_clears_hint() {
  let store = make_session_store(&[("s1", true)], &[]);
  let mut handler = NormalHandler {
    hint_message: Some("old hint"),
    ..Default::default()
  };
  let result = handler.handle_key(BareKey::Char('j'), &store);

  assert!(result.render);
  assert!(handler.hint_message.is_none());
}

#[test]
fn unhandled_key_returns_had_hint() {
  let store = make_session_store(&[("s1", true)], &[]);
  let mut handler = NormalHandler {
    hint_message: Some("hint"),
    ..Default::default()
  };
  let result = handler.handle_key(BareKey::Char('x'), &store);

  assert!(result.render);
  assert!(result.actions.is_empty());

  let result = handler.handle_key(BareKey::Char('x'), &store);

  assert!(!result.render);
}

#[test]
fn preserve_selection_finds_active_session() {
  let store = make_session_store(
    &[("alpha", true), ("bravo", false), ("charlie", false)],
    &[],
  );
  let mut handler = NormalHandler {
    selected_index: 0,
    ..Default::default()
  };
  handler.preserve_selection("charlie", &store);

  assert_eq!(handler.selected_index, 2);
}

#[test]
fn preserve_selection_finds_dead_session() {
  let store = make_session_store(&[("s1", true)], &["dead1", "dead2"]);
  let mut handler = NormalHandler {
    selected_index: 0,
    ..Default::default()
  };
  handler.preserve_selection("dead2", &store);

  assert_eq!(handler.selected_index, 1);
}

#[test]
fn preserve_selection_clamps_when_missing() {
  let store = make_session_store(&[("s1", true), ("s2", false)], &[]);
  let mut handler = NormalHandler {
    selected_index: 5,
    ..Default::default()
  };
  handler.preserve_selection("gone", &store);

  assert_eq!(handler.selected_index, 1);
}

#[test]
fn clamp_index_within_bounds() {
  let mut handler = NormalHandler {
    selected_index: 1,
    ..Default::default()
  };
  handler.clamp_index(2);

  assert_eq!(handler.selected_index, 1);
}

#[test]
fn clamp_index_past_end() {
  let mut handler = NormalHandler {
    selected_index: 5,
    ..Default::default()
  };
  handler.clamp_index(1);

  assert_eq!(handler.selected_index, 0);
}

#[test]
fn preserve_selection_tracks_session_that_moved_to_dead() {
  let store = make_session_store(&[("s1", true)], &["formerly_active"]);
  let mut handler = NormalHandler {
    selected_index: 0,
    ..Default::default()
  };
  handler.preserve_selection("formerly_active", &store);

  assert_eq!(handler.selected_index, 0);
}

#[test]
fn clamp_index_empty() {
  let mut handler = NormalHandler {
    selected_index: 3,
    ..Default::default()
  };
  handler.clamp_index(0);

  assert_eq!(handler.selected_index, 0);
}

// The hint set by `r` on another session is the rename hint.
#[test]
fn r_hint_text() {
    let store = make_session_store(&[("a", true), ("b", false)], &[]);
    let mut handler = NormalHandler { selected_index: 1, ..Default::default() };
    handler.handle_key(BareKey::Char('r'), &store);
    assert_eq!(handler.hint_message, Some(RENAME_HINT));
    assert_eq!(handler.hint_message, Some("Can only rename current session"));
}

// Down then up returns to the same session.
#[test]
fn down_then_up_returns() {
    let store = make_session_store(&[("a", true), ("b", false), ("c", false)], &[]);
    for start in 0..3 {
        let mut handler = NormalHandler { selected_index: start, ..Default::default() };
        handler.handle_key(BareKey::Down, &store);
        handler.handle_key(BareKey::Up, &store);
        if start < 2 {
            assert_eq!(handler.selected_index, start);
        } else {
            assert_eq!(handler.selected_index, 1);
        }
    }
}

// The highlight stays within the list whatever key is pressed.
#[test]
fn highlight_stays_in_bounds() {
    let store = make_session_store(&[("a", true), ("b", false)], &["c"]);
    let keys = [
        BareKey::Down, BareKey::Down, BareKey::Down, BareKey::Char('9'), BareKey::Char('3'),
        BareKey::Char('j'), BareKey::Up, BareKey::Up, BareKey::Up, BareKey::Char('k'),
    ];
    let mut handler = NormalHandler::default();
    for key in keys.iter() {
        handler.handle_key(*key, &store);
        assert!(handler.selected_index < store.total_count());
    }
}

// Quick switch to a dead session resurrects it by name.
#[test]
fn quick_switch_dead_session() {
    let store = make_session_store(&[("b", true)], &["a"]);
    let mut handler = NormalHandler::default();
    let result = handler.handle_key(BareKey::Char('1'), &store);
    assert_eq!(
        result.actions,
        vec![PluginAction::SwitchSession("a".to_string()), PluginAction::HideSelf]
    );
    assert_eq!(handler.selected_index, 0);
}

// `r` and `d` on an empty list do nothing, but still clear a shown hint.
#[test]
fn r_and_d_on_empty_list() {
    let store = make_session_store(&[], &[]);
    let mut handler = NormalHandler { hint_message: Some("x"), ..Default::default() };
    let result = handler.handle_key(BareKey::Char('d'), &store);
    assert!(result.render);
    assert!(result.actions.is_empty());
    assert!(handler.hint_message.is_none());
    let result = handler.handle_key(BareKey::Char('r'), &store);
    assert!(!result.render);
    assert!(result.transition.is_none());
}

// Preserving the selection picks the first session of that name.
#[test]
fn preserve_selection_first_match() {
    let store = make_session_store(&[("same", false)], &["same", "z"]);
    let mut handler = NormalHandler { selected_index: 2, ..Default::default() };
    handler.preserve_selection("same", &store);
    assert_eq!(handler.selected_index, 0);
}
