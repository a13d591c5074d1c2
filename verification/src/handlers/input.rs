use vstd::prelude::*;

use crate::host::BareKey;
use crate::text::{is_control, is_control_char, pop_char, push_char};
use crate::types::{
    plain_result, ActionView, HandlerResult, Mode, ModeTransition, PluginAction, ResultView,
    TransitionView,
};

verus! {

/// The longest name, in bytes, that the prompt accepts further characters at.
pub const MAX_INPUT_BYTES: usize = 128;

/// Handles text input key events for NewSession and RenameSession modes.
pub struct InputHandler {
    /// The current text input buffer.
    pub buffer: String,
}

impl Default for InputHandler {
    fn default() -> (res: Self)
        ensures
            res.buffer@.len() == 0,
    {
        InputHandler { buffer: String::new() }
    }
}

/// The length of a string in bytes (its UTF-8 encoding).
pub open spec fn byte_len(s: Seq<char>) -> nat {
    vstd::utf8::encode_utf8(s).len()
}

/// Whether typing `c` into `buffer` adds it: printable characters are
/// accepted while the buffer holds fewer than 128 bytes.
pub open spec fn accepts_char(buffer: Seq<char>, c: char) -> bool {
    !is_control_char(c) && byte_len(buffer) < MAX_INPUT_BYTES
}

/// The buffer after a key press in an input mode.
pub open spec fn input_buffer_after(buffer: Seq<char>, key: BareKey) -> Seq<char> {
    match key {
        BareKey::Esc => Seq::empty(),
        BareKey::Backspace => if buffer.len() > 0 {
            buffer.drop_last()
        } else {
            buffer
        },
        BareKey::Enter => Seq::empty(),
        BareKey::Char(c) => if accepts_char(buffer, c) {
            buffer.push(c)
        } else {
            buffer
        },
        _ => buffer,
    }
}

/// What a key press in an input mode yields.
pub open spec fn input_key_result(buffer: Seq<char>, key: BareKey, mode: Mode) -> ResultView {
    match key {
        BareKey::Esc => plain_result(true).with_transition(TransitionView::Normal),
        BareKey::Backspace => plain_result(true),
        BareKey::Enter => if buffer.len() > 0 {
            if mode == Mode::NewSession {
                plain_result(true).with_transition(TransitionView::LayoutSelect(buffer))
            } else {
                plain_result(true).with_action(ActionView::RenameSession(buffer)).with_transition(
                    TransitionView::Normal,
                )
            }
        } else {
            plain_result(true)
        },
        BareKey::Char(_) => plain_result(true),
        _ => plain_result(false),
    }
}

impl InputHandler {
    /// Clears the input buffer.
    pub fn clear(&mut self)
        ensures
            final(self).buffer@.len() == 0,
    {
        self.buffer = String::new();
    }

    /// Processes a key press in an input mode, handling character entry,
    /// backspace, escape (cancel), and enter (submit).
    pub fn handle_key(&mut self, key: BareKey, mode: &Mode) -> (res: HandlerResult)
        requires
            key == BareKey::Enter && old(self).buffer@.len() > 0 ==> *mode == Mode::NewSession
                || *mode == Mode::RenameSession,
        ensures
            res@ == input_key_result(old(self).buffer@, key, *mode),
            final(self).buffer@ == input_buffer_after(old(self).buffer@, key),
    {
        match key {
            BareKey::Esc => {
                self.buffer = String::new();
                HandlerResult::render().with_transition(ModeTransition::Normal)
            },
            BareKey::Backspace => {
                let _ = pop_char(&mut self.buffer);
                HandlerResult::render()
            },
            BareKey::Enter => {
                if !self.buffer.as_str().is_empty() {
                    let mut name = String::new();
                    std::mem::swap(&mut name, &mut self.buffer);
                    match mode {
                        Mode::NewSession => {
                            HandlerResult::render().with_transition(
                                ModeTransition::LayoutSelect(name),
                            )
                        },
                        _ => {
                            HandlerResult::render().with_action(
                                PluginAction::RenameSession(name),
                            ).with_transition(ModeTransition::Normal)
                        },
                    }
                } else {
                    HandlerResult::render()
                }
            },
            BareKey::Char(c) => {
                if !is_control(c) && crate::text::byte_len(self.buffer.as_str()) < MAX_INPUT_BYTES {
                    push_char(&mut self.buffer, c);
                }
                HandlerResult::render()
            },
            _ => HandlerResult::no_render(),
        }
    }
}

/// Backspace undoes typing a character that the prompt accepted.
pub proof fn law_backspace_undoes_typing(buffer: Seq<char>, c: char)
    requires
        accepts_char(buffer, c),
    ensures
        input_buffer_after(input_buffer_after(buffer, BareKey::Char(c)), BareKey::Backspace)
            == buffer,
{
    assert(buffer.push(c).drop_last() =~= buffer);
}

/// Enter submits exactly what was typed: the new session's name, or the
/// new name of the current session; the prompt is left empty.
pub proof fn law_enter_submits_buffer(buffer: Seq<char>, mode: Mode)
    requires
        buffer.len() > 0,
        mode == Mode::NewSession || mode == Mode::RenameSession,
    ensures
        mode == Mode::NewSession ==> input_key_result(buffer, BareKey::Enter, mode).transition
            == Some(TransitionView::LayoutSelect(buffer)),
        mode == Mode::RenameSession ==> input_key_result(buffer, BareKey::Enter, mode).actions
            == seq![ActionView::RenameSession(buffer)],
        input_buffer_after(buffer, BareKey::Enter).len() == 0,
{
}

/// Esc cancels the prompt: the buffer is emptied and Normal mode returns.
pub proof fn law_esc_cancels(buffer: Seq<char>, mode: Mode)
    ensures
        input_buffer_after(buffer, BareKey::Esc).len() == 0,
        input_key_result(buffer, BareKey::Esc, mode).transition == Some(TransitionView::Normal),
        input_key_result(buffer, BareKey::Esc, mode).actions.len() == 0,
{
}

/// Typing adds any character that is not a control character (Unicode
/// category Cc: U+0000–U+001F and U+007F–U+009F) while the buffer holds
/// fewer than 128 bytes, digits and punctuation alike; a control character,
/// or any character at the limit, leaves the buffer as it was. Typing
/// always redraws and never acts or changes mode.
pub proof fn law_typing_appends_printable(buffer: Seq<char>, c: char, mode: Mode)
    ensures
        ({
            let control = (c as u32) <= 0x1f || (0x7f <= (c as u32) && (c as u32) <= 0x9f);
            let room = vstd::utf8::encode_utf8(buffer).len() < 128;
            &&& !control && room ==> input_buffer_after(buffer, BareKey::Char(c)) == buffer.push(c)
            &&& (control || !room) ==> input_buffer_after(buffer, BareKey::Char(c)) == buffer
            &&& input_key_result(buffer, BareKey::Char(c), mode).render
            &&& input_key_result(buffer, BareKey::Char(c), mode).actions.len() == 0
            &&& input_key_result(buffer, BareKey::Char(c), mode).transition is None
        }),
{
}

/// Backspace removes the last character, if any, and nothing else.
pub proof fn law_backspace_removes_last(buffer: Seq<char>, mode: Mode)
    ensures
        buffer.len() > 0 ==> input_buffer_after(buffer, BareKey::Backspace) == buffer.subrange(
            0,
            buffer.len() - 1,
        ),
        buffer.len() == 0 ==> input_buffer_after(buffer, BareKey::Backspace).len() == 0,
        input_key_result(buffer, BareKey::Backspace, mode).actions.len() == 0,
        input_key_result(buffer, BareKey::Backspace, mode).transition is None,
{
}

/// Enter on an empty prompt does nothing but redraw: no action, no mode
/// change, the prompt stays empty.
pub proof fn law_enter_on_empty_stays(mode: Mode)
    ensures
        input_key_result(Seq::empty(), BareKey::Enter, mode).actions.len() == 0,
        input_key_result(Seq::empty(), BareKey::Enter, mode).transition is None,
        input_buffer_after(Seq::empty(), BareKey::Enter).len() == 0,
{
}

} // verus!
