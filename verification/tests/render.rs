use std::time::Duration;

use zellij_switcher::config::PluginConfig;
use zellij_switcher::handlers::input::InputHandler;
use zellij_switcher::handlers::layout_select::LayoutSelectHandler;
use zellij_switcher::handlers::normal::NormalHandler;
use zellij_switcher::host::SessionInfo;
use zellij_switcher::render::render;
use zellij_switcher::session_store::{SessionEntry, SessionStore};
use zellij_switcher::types::Mode;

fn make_session(name: &str, is_current: bool) -> SessionInfo {
    SessionInfo { name: name.to_string(), is_current_session: is_current, available_layouts: Vec::new() }
}

fn make_session_store(active: &[(&str, bool)], dead: &[&str]) -> SessionStore {
    let mut entries: Vec<SessionEntry> = Vec::new();
    for (name, current) in active {
        entries.push(SessionEntry::Active(make_session(name, *current)));
    }
    for name in dead {
        entries.push(SessionEntry::Dead { name: name.to_string(), duration: Duration::from_secs(0) });
    }
    entries.sort_by(|a, b| a.name().cmp(b.name()));
    SessionStore { entries, ..Default::default() }
}

fn default_deps() -> (SessionStore, NormalHandler, InputHandler, LayoutSelectHandler, PluginConfig) {
    (
        SessionStore::default(),
        NormalHandler::default(),
        InputHandler::default(),
        LayoutSelectHandler::default(),
        PluginConfig::default(),
    )
}

#[test]
fn skips_render_when_rows_too_small() {
    let (store, normal, input, layout, config) = default_deps();
    // Should return early without panicking
    render(&Mode::Normal, &store, &normal, &input, &layout, &config, 3, 80);
}

#[test]
fn skips_render_when_cols_too_small() {
    let (store, normal, input, layout, config) = default_deps();
    render(&Mode::Normal, &store, &normal, &input, &layout, &config, 20, 9);
}

#[test]
fn renders_normal_mode() {
    let (store, normal, input, layout, config) = default_deps();
    render(&Mode::Normal, &store, &normal, &input, &layout, &config, 20, 80);
}

#[test]
fn renders_new_session_mode() {
    let (store, normal, input, layout, config) = default_deps();
    render(&Mode::NewSession, &store, &normal, &input, &layout, &config, 20, 80);
}

#[test]
fn renders_rename_session_mode() {
    let (store, normal, input, layout, config) = default_deps();
    render(&Mode::RenameSession, &store, &normal, &input, &layout, &config, 20, 80);
}

#[test]
fn renders_layout_select_mode() {
    let (store, normal, input, layout, config) = default_deps();
    render(&Mode::LayoutSelect, &store, &normal, &input, &layout, &config, 20, 80);
}

#[test]
fn renders_with_sessions() {
    let store = make_session_store(&[("s1", true), ("s2", false)], &["dead1"]);
    let normal = NormalHandler::default();
    let input = InputHandler::default();
    let layout = LayoutSelectHandler::default();
    let config = PluginConfig::default();
    render(&Mode::Normal, &store, &normal, &input, &layout, &config, 20, 80);
}

#[test]
fn renders_at_boundary_dimensions() {
    let (store, normal, input, layout, config) = default_deps();
    render(&Mode::Normal, &store, &normal, &input, &layout, &config, 4, 10);
}

// A pane too small gets nothing drawn.
#[test]
fn too_small_draws_nothing() {
    let (store, normal, input, layout, config) = default_deps();
    assert!(render(&Mode::Normal, &store, &normal, &input, &layout, &config, 3, 80).is_empty());
    assert!(render(&Mode::Normal, &store, &normal, &input, &layout, &config, 20, 9).is_empty());
}

// A frame is the header, then the list, then the footer.
#[test]
fn frame_order() {
    let store = make_session_store(&[("s1", true), ("s2", false)], &["dead1"]);
    let (_, normal, input, layout, config) = default_deps();
    let out = render(&Mode::Normal, &store, &normal, &input, &layout, &config, 20, 80);
    assert_eq!(out.len(), 6);
    assert_eq!(out[0].text.content, "Session Manager");
    assert_eq!(out[0].y, 0);
    assert_eq!(out[1].text.content, "1 dead1 (dead)");
    assert_eq!(out[2].text.content, "2 s1 (active)");
    assert_eq!(out[3].text.content, "3 s2");
    assert_eq!(out[4].y, 18);
    assert_eq!(out[5].y, 19);
}

// The layout picker replaces the session list.
#[test]
fn layout_select_frame_lists_layouts() {
    let (store, normal, input, mut layout, config) = default_deps();
    layout.session_name = "new".to_string();
    let out = render(&Mode::LayoutSelect, &store, &normal, &input, &layout, &config, 20, 80);
    assert_eq!(out.len(), 4);
    assert_eq!(out[1].text.content, "No layouts available");
    assert_eq!(out[2].text.content, "  Select layout for 'new'");
}
