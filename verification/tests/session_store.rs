use std::time::Duration;

use zellij_switcher::host::{LayoutInfo, SessionInfo};
use zellij_switcher::session_store::{SessionEntry, SessionStore};
use zellij_switcher::types::SelectedSession;

fn make_session(name: &str, is_current: bool) -> SessionInfo {
    SessionInfo { name: name.to_string(), is_current_session: is_current, available_layouts: Vec::new() }
}

fn make_session_store(active: &[(&str, bool)], dead: &[&str]) -> SessionStore {
    let mut entries: Vec<SessionEntry> = Vec::new();
    for (name, current) in active {
        entries.push(SessionEntry::Active(make_session(name, *current)));
    }
    for name in dead {
        entries.push(SessionEntry::Dead { name: name.to_string(), duration: Duration::from_secs(0) });
    }
    entries.sort_by(|a, b| a.name().cmp(b.name()));
    SessionStore { entries, ..Default::default() }
}

fn names(store: &SessionStore) -> Vec<&str> {
    store.entries.iter().map(|e| e.name()).collect()
}

#[test]
fn total_count_empty() {
    let store = SessionStore::default();

    assert_eq!(store.total_count(), 0);
}

#[test]
fn total_count_active_only() {
    let store = make_session_store(&[("s1", true), ("s2", false)], &[]);

    assert_eq!(store.total_count(), 2);
}

#[test]
fn total_count_mixed() {
    let store = make_session_store(&[("s1", true)], &["dead1", "dead2"]);

    assert_eq!(store.total_count(), 3);
}

#[test]
fn selected_session_active() {
    let store = make_session_store(&[("s1", true), ("s2", false)], &[]);

    match store.selected_session(0) {
        Some(SelectedSession::Active(s)) => assert_eq!(s.name, "s1"),
        _ => panic!("expected active session"),
    }
}

#[test]
fn selected_session_dead() {
    let store = make_session_store(&[("s1", true)], &["dead1"]);

    match store.selected_session(0) {
        Some(SelectedSession::Dead(name)) => assert_eq!(name, "dead1"),
        _ => panic!("expected dead session"),
    }
}

#[test]
fn selected_session_out_of_bounds() {
    let store = make_session_store(&[("s1", true)], &[]);

    assert!(store.selected_session(5).is_none());
}

#[test]
fn selected_session_empty() {
    let store = SessionStore::default();

    assert!(store.selected_session(0).is_none());
}

#[test]
fn update_populates_state() {
    let mut store = SessionStore::default();
    let sessions = vec![make_session("s1", true), make_session("s2", false)];
    let dead = vec![("dead1".to_string(), Duration::from_secs(60))];
    let changed = store.update(sessions, dead);

    assert!(changed);
    assert_eq!(store.entries.len(), 3);
}

#[test]
fn update_copies_layouts_from_current() {
    let mut store = SessionStore::default();
    let mut current = make_session("s1", true);
    current.available_layouts = vec![LayoutInfo::BuiltIn("default".to_string())];
    let sessions = vec![current, make_session("s2", false)];
    let changed = store.update(sessions, vec![]);

    assert!(changed);
    assert_eq!(store.available_layouts.len(), 1);
}

#[test]
fn update_sorts_entries_alphabetically() {
    let mut store = SessionStore::default();
    let sessions = vec![
        make_session("charlie", false),
        make_session("alpha", true),
        make_session("bravo", false),
    ];
    store.update(sessions, vec![]);

    assert_eq!(names(&store), vec!["alpha", "bravo", "charlie"]);
}

#[test]
fn update_interleaves_active_and_dead_alphabetically() {
    let mut store = SessionStore::default();
    let sessions = vec![make_session("charlie", false), make_session("alpha", true)];
    let dead = vec![
        ("bravo".to_string(), Duration::from_secs(0)),
        ("delta".to_string(), Duration::from_secs(0)),
    ];
    store.update(sessions, dead);

    assert_eq!(names(&store), vec!["alpha", "bravo", "charlie", "delta"]);
}

#[test]
fn update_returns_false_when_unchanged() {
    let mut store = SessionStore::default();
    let sessions = vec![make_session("s1", true), make_session("s2", false)];
    let dead = vec![("dead1".to_string(), Duration::from_secs(0))];
    store.update(sessions, dead);

    let sessions2 = vec![make_session("s1", true), make_session("s2", false)];
    let dead2 = vec![("dead1".to_string(), Duration::from_secs(0))];
    let changed = store.update(sessions2, dead2);

    assert!(!changed);
}

#[test]
fn update_returns_true_when_session_added() {
    let mut store = SessionStore::default();
    let sessions = vec![make_session("s1", true)];
    store.update(sessions, vec![]);

    let sessions2 = vec![make_session("s1", true), make_session("s2", false)];
    let changed = store.update(sessions2, vec![]);

    assert!(changed);
}

#[test]
fn update_returns_true_when_is_current_changes() {
    let mut store = SessionStore::default();
    let sessions = vec![make_session("s1", true), make_session("s2", false)];
    store.update(sessions, vec![]);

    let sessions2 = vec![make_session("s1", false), make_session("s2", true)];
    let changed = store.update(sessions2, vec![]);

    assert!(changed);
}

#[test]
fn update_returns_true_when_session_changes_state() {
    let mut store = SessionStore::default();
    let sessions = vec![make_session("s1", true), make_session("s2", false)];
    store.update(sessions, vec![]);

    let sessions2 = vec![make_session("s1", true)];
    let dead2 = vec![("s2".to_string(), Duration::from_secs(0))];
    let changed = store.update(sessions2, dead2);

    assert!(changed);
}

// The current session hands its layouts to the store and lists none itself.
#[test]
fn update_moves_layouts_out_of_current() {
    let mut store = SessionStore::default();
    let mut current = make_session("s1", true);
    current.available_layouts = vec![
        LayoutInfo::BuiltIn("default".to_string()),
        LayoutInfo::File("mine".to_string()),
    ];
    store.update(vec![make_session("s0", false), current], vec![]);
    assert_eq!(
        store.available_layouts,
        vec![LayoutInfo::BuiltIn("default".to_string()), LayoutInfo::File("mine".to_string())]
    );
    match &store.entries[1] {
        SessionEntry::Active(s) => assert!(s.available_layouts.is_empty()),
        _ => panic!("expected a running session"),
    }
}

// Without a current session the layouts stay as they were.
#[test]
fn update_keeps_layouts_without_current() {
    let mut store = SessionStore {
        available_layouts: vec![LayoutInfo::BuiltIn("kept".to_string())],
        ..Default::default()
    };
    store.update(vec![make_session("s1", false)], vec![]);
    assert_eq!(store.available_layouts, vec![LayoutInfo::BuiltIn("kept".to_string())]);
}

// Equal names keep their order: running sessions before dead ones.
#[test]
fn update_sort_is_stable() {
    let mut store = SessionStore::default();
    store.update(
        vec![make_session("b", false), make_session("a", true)],
        vec![("a".to_string(), Duration::from_secs(5))],
    );
    assert_eq!(names(&store), vec!["a", "a", "b"]);
    assert!(matches!(store.entries[0], SessionEntry::Active(_)));
    assert!(matches!(store.entries[1], SessionEntry::Dead { .. }));
}

// Sorting is by code point, so upper case sorts before lower case.
#[test]
fn update_sorts_by_code_point() {
    let mut store = SessionStore::default();
    store.update(
        vec![make_session("beta", false), make_session("Zeta", false), make_session("alpha", false)],
        vec![],
    );
    assert_eq!(names(&store), vec!["Zeta", "alpha", "beta"]);
}

// A dead session's age alone is no change.
#[test]
fn update_ignores_dead_duration() {
    let mut store = SessionStore::default();
    store.update(vec![], vec![("d".to_string(), Duration::from_secs(1))]);
    let changed = store.update(vec![], vec![("d".to_string(), Duration::from_secs(99))]);
    assert!(!changed);
    match &store.entries[0] {
        SessionEntry::Dead { duration, .. } => assert_eq!(*duration, Duration::from_secs(1)),
        _ => panic!("expected a dead session"),
    }
}

// New layouts from the current session are a change, even when the sessions
// are the same; the same layouts again are none.
#[test]
fn update_reports_layout_change() {
    let mut store = SessionStore::default();
    let mut current = make_session("s1", true);
    current.available_layouts = vec![LayoutInfo::BuiltIn("default".to_string())];
    assert!(store.update(vec![current], vec![]));

    let mut same = make_session("s1", true);
    same.available_layouts = vec![LayoutInfo::BuiltIn("default".to_string())];
    assert!(!store.update(vec![same], vec![]));

    let mut newer = make_session("s1", true);
    newer.available_layouts = vec![
        LayoutInfo::BuiltIn("default".to_string()),
        LayoutInfo::File("mine".to_string()),
    ];
    assert!(store.update(vec![newer], vec![]));
    assert_eq!(store.available_layouts.len(), 2);
    assert_eq!(store.entries.len(), 1);
}
