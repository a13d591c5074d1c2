use zellij_switcher::handlers::input::{InputHandler, MAX_INPUT_BYTES};
use zellij_switcher::host::BareKey;
use zellij_switcher::types::{Mode, ModeTransition, PluginAction};

#[test]
fn char_appends() {
    let mut handler = InputHandler::default();
    let result = handler.handle_key(BareKey::Char('a'), &Mode::NewSession);

    assert!(result.render);
    assert!(result.actions.is_empty());
    assert_eq!(handler.buffer, "a");

    handler.handle_key(BareKey::Char('b'), &Mode::NewSession);

    assert_eq!(handler.buffer, "ab");
}

#[test]
fn backspace_removes() {
    let mut handler = InputHandler { buffer: "abc".to_string() };
    let result = handler.handle_key(BareKey::Backspace, &Mode::NewSession);

    assert!(result.render);
    assert_eq!(handler.buffer, "ab");
}

#[test]
fn backspace_on_empty() {
    let mut handler = InputHandler::default();
    let result = handler.handle_key(BareKey::Backspace, &Mode::NewSession);

    assert!(result.render);
    assert!(handler.buffer.is_empty());
}

#[test]
fn esc_clears_and_transitions_to_normal() {
    let mut handler = InputHandler { buffer: "partial".to_string() };
    let result = handler.handle_key(BareKey::Esc, &Mode::NewSession);

    assert!(result.render);
    assert!(result.actions.is_empty());
    assert!(matches!(result.transition, Some(ModeTransition::Normal)));
    assert!(handler.buffer.is_empty());
}

#[test]
fn enter_new_session_transitions_to_layout_select() {
    let mut handler = InputHandler { buffer: "my-session".to_string() };
    let result = handler.handle_key(BareKey::Enter, &Mode::NewSession);

    assert!(result.render);
    assert!(result.actions.is_empty());
    assert!(matches!(
      result.transition,
      Some(ModeTransition::LayoutSelect(ref name)) if name == "my-session"
    ));
    assert!(handler.buffer.is_empty());
}

#[test]
fn enter_rename_renames_and_transitions() {
    let mut handler = InputHandler { buffer: "new-name".to_string() };
    let result = handler.handle_key(BareKey::Enter, &Mode::RenameSession);

    assert!(result.render);
    assert_eq!(result.actions, vec![PluginAction::RenameSession("new-name".to_string())]);
    assert!(matches!(result.transition, Some(ModeTransition::Normal)));
    assert!(handler.buffer.is_empty());
}

#[test]
fn enter_empty_buffer_does_nothing() {
    let mut handler = InputHandler::default();
    let result = handler.handle_key(BareKey::Enter, &Mode::NewSession);

    assert!(result.render);
    assert!(result.actions.is_empty());
    assert!(result.transition.is_none());
}

#[test]
fn control_char_rejected() {
    let mut handler = InputHandler::default();
    handler.handle_key(BareKey::Char('\x01'), &Mode::NewSession);

    assert!(handler.buffer.is_empty());
}

#[test]
fn buffer_rejects_input_at_limit() {
    let mut handler = InputHandler { buffer: "a".repeat(128) };
    handler.handle_key(BareKey::Char('b'), &Mode::NewSession);

    assert_eq!(handler.buffer.len(), 128);
}

#[test]
fn unhandled_key() {
    let mut handler = InputHandler::default();
    let result = handler.handle_key(BareKey::Tab, &Mode::NewSession);

    assert!(!result.render);
    assert!(result.actions.is_empty());
}

// Backspace undoes a typed character.
#[test]
fn backspace_undoes_typed_char() {
    let mut handler = InputHandler { buffer: "name".to_string() };
    handler.handle_key(BareKey::Char('x'), &Mode::RenameSession);
    assert_eq!(handler.buffer, "namex");
    handler.handle_key(BareKey::Backspace, &Mode::RenameSession);
    assert_eq!(handler.buffer, "name");
}

// Backspace removes a whole multi-byte character.
#[test]
fn backspace_removes_multibyte_char() {
    let mut handler = InputHandler { buffer: "caf\u{e9}".to_string() };
    handler.handle_key(BareKey::Backspace, &Mode::NewSession);
    assert_eq!(handler.buffer, "caf");
}

// The limit counts bytes: a buffer just under the limit still takes a
// character, even one that brings it past the limit.
#[test]
fn buffer_accepts_input_just_under_limit() {
    let mut handler = InputHandler { buffer: "a".repeat(MAX_INPUT_BYTES - 1) };
    handler.handle_key(BareKey::Char('\u{e9}'), &Mode::NewSession);
    assert_eq!(handler.buffer.len(), MAX_INPUT_BYTES + 1);
    handler.handle_key(BareKey::Char('b'), &Mode::NewSession);
    assert_eq!(handler.buffer.len(), MAX_INPUT_BYTES + 1);
}

// Esc cancels the rename prompt too.
#[test]
fn esc_cancels_rename() {
    let mut handler = InputHandler { buffer: "half".to_string() };
    let result = handler.handle_key(BareKey::Esc, &Mode::RenameSession);
    assert!(result.actions.is_empty());
    assert!(matches!(result.transition, Some(ModeTransition::Normal)));
    assert!(handler.buffer.is_empty());
}

// Non-character keys other than Enter, Esc and Backspace leave the buffer.
#[test]
fn arrow_keys_leave_buffer() {
    let mut handler = InputHandler { buffer: "keep".to_string() };
    let result = handler.handle_key(BareKey::Left, &Mode::NewSession);
    assert!(!result.render);
    assert_eq!(handler.buffer, "keep");
}
