use zellij_switcher::config::PluginConfig;
use zellij_switcher::handlers::input::InputHandler;
use zellij_switcher::handlers::layout_select::LayoutSelectHandler;
use zellij_switcher::handlers::normal::NormalHandler;
use zellij_switcher::render::draw::{ColorRange, Text};
use zellij_switcher::render::footer::{
    color_shortcut_keys, find_shortcut_key, render_footer, render_input_footer,
};
use zellij_switcher::types::Mode;

fn default_deps() -> (NormalHandler, InputHandler, LayoutSelectHandler, PluginConfig) {
    (
        NormalHandler::default(),
        InputHandler::default(),
        LayoutSelectHandler::default(),
        PluginConfig::default(),
    )
}

#[test]
fn find_shortcut_key_space_colon() {
    let text = "  Enter: switch  n: new  r: rename  d: delete  Esc: close";
    assert_eq!(find_shortcut_key(text, "Enter"), Some(2));
    assert_eq!(find_shortcut_key(text, "n"), Some(17));
    assert_eq!(find_shortcut_key(text, "r"), Some(25));
    assert_eq!(find_shortcut_key(text, "d"), Some(36));
    assert_eq!(find_shortcut_key(text, "Esc"), Some(47));
}

#[test]
fn find_shortcut_key_slash_separated() {
    let text = "  j/k: navigate  1-9: quick switch";
    assert_eq!(find_shortcut_key(text, "j"), Some(2));
    assert_eq!(find_shortcut_key(text, "k"), Some(4));
    assert_eq!(find_shortcut_key(text, "1-9"), Some(17));
}

#[test]
fn find_shortcut_key_not_found() {
    let text = "  Enter: switch";
    assert_eq!(find_shortcut_key(text, "z"), None);
}

#[test]
fn render_normal_mode_does_not_panic() {
    let (normal, input, layout, config) = default_deps();
    render_footer(&Mode::Normal, &normal, &input, &layout, &config, 20, 80);
}

#[test]
fn render_normal_mode_with_hint_does_not_panic() {
    let (mut normal, input, layout, config) = default_deps();
    normal.hint_message = Some("Can only rename current session");
    render_footer(&Mode::Normal, &normal, &input, &layout, &config, 20, 80);
}

#[test]
fn render_normal_mode_without_nav_help_does_not_panic() {
    let (normal, input, layout, mut config) = default_deps();
    config.show_navigation_help = false;
    render_footer(&Mode::Normal, &normal, &input, &layout, &config, 20, 80);
}

#[test]
fn render_new_session_mode_does_not_panic() {
    let (normal, mut input, layout, config) = default_deps();
    input.buffer = "my-session".to_string();
    render_footer(&Mode::NewSession, &normal, &input, &layout, &config, 20, 80);
}

#[test]
fn render_rename_session_mode_does_not_panic() {
    let (normal, mut input, layout, config) = default_deps();
    input.buffer = "new-name".to_string();
    render_footer(&Mode::RenameSession, &normal, &input, &layout, &config, 20, 80);
}

#[test]
fn render_layout_select_mode_does_not_panic() {
    let (normal, input, mut layout, config) = default_deps();
    layout.session_name = "test-session".to_string();
    render_footer(&Mode::LayoutSelect, &normal, &input, &layout, &config, 20, 80);
}

#[test]
fn render_with_small_rows_does_not_panic() {
    let (normal, input, layout, config) = default_deps();
    render_footer(&Mode::Normal, &normal, &input, &layout, &config, 1, 80);
}

// A key that occurs first outside a shortcut is found at its shortcut
// occurrence.
#[test]
fn find_shortcut_key_skips_plain_occurrences() {
    let text = "  rename  r: rename";
    assert_eq!(find_shortcut_key(text, "r"), Some(10));
    assert_eq!(find_shortcut_key("r: x", "r"), None);
    assert_eq!(find_shortcut_key(" r", "r"), None);
}

// Offsets are in bytes, past multi-byte characters.
#[test]
fn find_shortcut_key_counts_bytes() {
    assert_eq!(find_shortcut_key("\u{e9} n: new", "n"), Some(3));
}

// Each found key gets a color range over its bytes; a missing key none.
#[test]
fn color_shortcut_keys_ranges() {
    let content = "  Enter: go  Esc: stop";
    let text = color_shortcut_keys(Text::from_str(content), content, 2, &["Enter", "q", "Esc"]);
    assert_eq!(
        text.color_ranges,
        vec![
            ColorRange { color: 2, start: 2, end: Some(7) },
            ColorRange { color: 2, start: 13, end: Some(16) },
        ]
    );
    assert_eq!(text.content, content);
}

// Normal mode prints the hint above the shortcuts, and the navigation help
// below them.
#[test]
fn normal_footer_rows() {
    let (mut normal, input, layout, config) = default_deps();
    normal.hint_message = Some("hint");
    let out = render_footer(&Mode::Normal, &normal, &input, &layout, &config, 20, 80);
    assert_eq!(out.len(), 3);
    assert_eq!(out[0].text.content, "  hint");
    assert_eq!(out[0].y, 17);
    assert_eq!(out[0].text.color_ranges, vec![ColorRange { color: 2, start: 0, end: None }]);
    assert_eq!(out[1].text.content, "  Enter: switch  n: new  r: rename  d: delete  Esc: close");
    assert_eq!(out[1].y, 18);
    assert_eq!(out[1].width, Some(80));
    assert_eq!(out[1].text.color_ranges.len(), 5);
    assert_eq!(out[2].text.content, "  j/k: navigate  1-9: quick switch");
    assert_eq!(out[2].y, 19);
}

// Without navigation help and without a hint, Normal mode prints one line.
#[test]
fn normal_footer_minimal() {
    let (normal, input, layout, mut config) = default_deps();
    config.show_navigation_help = false;
    let out = render_footer(&Mode::Normal, &normal, &input, &layout, &config, 1, 80);
    assert_eq!(out.len(), 1);
    assert_eq!(out[0].y, 0);
}

// The input footer shows the label, the buffer and a cursor.
#[test]
fn input_footer_prompt() {
    let (_, mut input, _, config) = default_deps();
    input.buffer = "abc".to_string();
    let out = render_input_footer("  Name: ", "create", &input, &config, 5, 40);
    assert_eq!(out.len(), 2);
    assert_eq!(out[0].text.content, "  Name: abc|");
    assert_eq!(out[0].text.color_ranges, vec![ColorRange { color: 0, start: 0, end: Some(8) }]);
    assert_eq!(out[0].y, 5);
    assert_eq!(out[1].text.content, "  Enter: create  Esc: cancel");
    assert_eq!(out[1].y, 6);
    assert_eq!(
        out[1].text.color_ranges,
        vec![
            ColorRange { color: 0, start: 2, end: Some(7) },
            ColorRange { color: 0, start: 17, end: Some(20) },
        ]
    );
}

// The layout picker footer names the session being created.
#[test]
fn layout_select_footer_names_session() {
    let (normal, input, mut layout, config) = default_deps();
    layout.session_name = "work".to_string();
    let out = render_footer(&Mode::LayoutSelect, &normal, &input, &layout, &config, 20, 80);
    assert_eq!(out.len(), 2);
    assert_eq!(out[0].text.content, "  Select layout for 'work'");
    assert_eq!(out[1].text.content, "  Enter: create  Esc: cancel  j/k: navigate");
    assert_eq!(out[1].text.color_ranges.len(), 4);
}

// The rename footer uses the rename label and verb.
#[test]
fn rename_footer_text() {
    let (normal, mut input, layout, config) = default_deps();
    input.buffer = "x".to_string();
    let out = render_footer(&Mode::RenameSession, &normal, &input, &layout, &config, 20, 80);
    assert_eq!(out[0].text.content, "  Rename session: x|");
    assert_eq!(out[1].text.content, "  Enter: rename  Esc: cancel");
}
