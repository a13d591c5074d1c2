use vstd::prelude::*;

use crate::handlers::normal::{is_down_key, is_up_key, quick_index};
use crate::host::{BareKey, LayoutInfo};
use crate::types::{
    plain_result, ActionView, HandlerResult, ModeTransition, PluginAction, ResultView,
    TransitionView,
};

verus! {

/// Handles key events in LayoutSelect mode (layout picker for new sessions).
pub struct LayoutSelectHandler {
    /// Index of the currently highlighted layout.
    pub selected_index: usize,
    /// Name of the session being created.
    pub session_name: String,
}

impl Default for LayoutSelectHandler {
    fn default() -> (res: Self)
        ensures
            res.selected_index == 0,
            res.session_name@.len() == 0,
    {
        LayoutSelectHandler { selected_index: 0, session_name: String::new() }
    }
}

/// Create the session with the layout, then hide the plugin.
pub open spec fn create_result(name: Seq<char>, layout: LayoutInfo) -> ResultView {
    plain_result(false).with_action(ActionView::SwitchSessionWithLayout(name, layout@)).with_action(
        ActionView::HideSelf,
    )
}

/// The index of the layout that a key picks (Enter picks the highlighted
/// one, a digit the one at its position), if the key picks one.
pub open spec fn picked_layout(key: BareKey, index: usize, count: nat) -> Option<nat> {
    if key == BareKey::Enter {
        if index < count {
            Some(index as nat)
        } else {
            None
        }
    } else if quick_index(key) is Some && quick_index(key)->0 < count {
        quick_index(key)
    } else {
        None
    }
}

/// The highlight after a key press in LayoutSelect mode.
pub open spec fn layout_index_after(key: BareKey, index: usize, count: nat) -> usize {
    if key == BareKey::Esc {
        0
    } else if is_down_key(key) {
        if count > 0 && index < count - 1 {
            (index + 1) as usize
        } else {
            index
        }
    } else if is_up_key(key) {
        if index > 0 {
            (index - 1) as usize
        } else {
            index
        }
    } else if quick_index(key) is Some && quick_index(key)->0 < count {
        quick_index(key)->0 as usize
    } else {
        index
    }
}

/// What a key press in LayoutSelect mode yields.
pub open spec fn layout_key_result(
    key: BareKey,
    index: usize,
    name: Seq<char>,
    layouts: Seq<LayoutInfo>,
) -> ResultView {
    if key == BareKey::Esc {
        plain_result(true).with_transition(TransitionView::Normal)
    } else if is_down_key(key) || is_up_key(key) {
        plain_result(true)
    } else if picked_layout(key, index, layouts.len()) is Some {
        create_result(name, layouts[picked_layout(key, index, layouts.len())->0 as int])
    } else {
        plain_result(false)
    }
}

impl LayoutSelectHandler {
    /// Initializes the handler for a new layout selection with the given session name.
    pub fn start(&mut self, session_name: String)
        ensures
            final(self).session_name == session_name,
            final(self).selected_index == 0,
    {
        self.session_name = session_name;
        self.selected_index = 0;
    }

    /// Processes a key press in LayoutSelect mode, handling navigation,
    /// layout selection, and cancellation.
    pub fn handle_key(&mut self, key: BareKey, layouts: &[LayoutInfo]) -> (res: HandlerResult)
        ensures
            res@ == layout_key_result(
                key,
                old(self).selected_index,
                old(self).session_name@,
                layouts@,
            ),
            final(self).selected_index == layout_index_after(
                key,
                old(self).selected_index,
                layouts@.len(),
            ),
            key == BareKey::Esc || picked_layout(key, old(self).selected_index, layouts@.len()) is Some
                ==> final(self).session_name@ == Seq::<char>::empty(),
            !(key == BareKey::Esc || picked_layout(key, old(self).selected_index, layouts@.len()) is Some)
                ==> final(self).session_name == old(self).session_name,
    {
        let count = layouts.len();
        match key {
            BareKey::Esc => {
                self.session_name = String::new();
                self.selected_index = 0;
                HandlerResult::render().with_transition(ModeTransition::Normal)
            },
            BareKey::Char('j') | BareKey::Down => {
                if count > 0 && self.selected_index < count - 1 {
                    self.selected_index = self.selected_index + 1;
                }
                HandlerResult::render()
            },
            BareKey::Char('k') | BareKey::Up => {
                if self.selected_index > 0 {
                    self.selected_index = self.selected_index - 1;
                }
                HandlerResult::render()
            },
            BareKey::Enter => {
                if self.selected_index < count {
                    let layout = layouts[self.selected_index].clone();
                    let mut name = String::new();
                    std::mem::swap(&mut name, &mut self.session_name);
                    HandlerResult::no_render().with_action(
                        PluginAction::SwitchSessionWithLayout(name, layout),
                    ).with_action(PluginAction::HideSelf)
                } else {
                    HandlerResult::no_render()
                }
            },
            BareKey::Char(c) => {
                if '1' <= c && c <= '9' {
                    let index = (c as u32 - '1' as u32) as usize;
                    if index < count {
                        self.selected_index = index;
                        let layout = layouts[index].clone();
                        let mut name = String::new();
                        std::mem::swap(&mut name, &mut self.session_name);
                        return HandlerResult::no_render().with_action(
                            PluginAction::SwitchSessionWithLayout(name, layout),
                        ).with_action(PluginAction::HideSelf);
                    }
                }
                HandlerResult::no_render()
            },
            _ => HandlerResult::no_render(),
        }
    }
}

/// Navigation in the layout picker keeps the highlight within the layouts.
pub proof fn law_layout_highlight_in_bounds(key: BareKey, index: usize, count: nat)
    requires
        index < count || (count == 0 && index == 0),
    ensures
        ({
            let after = layout_index_after(key, index, count);
            after < count || (count == 0 && after == 0)
        }),
{
}

/// Picking a layout creates the session under the name that was typed, with
/// that layout, and hides the plugin.
pub proof fn law_pick_creates_named_session(
    key: BareKey,
    index: usize,
    name: Seq<char>,
    layouts: Seq<LayoutInfo>,
)
    requires
        picked_layout(key, index, layouts.len()) is Some,
        key != BareKey::Esc,
    ensures
        layout_key_result(key, index, name, layouts).actions == seq![
            ActionView::SwitchSessionWithLayout(
                name,
                layouts[picked_layout(key, index, layouts.len())->0 as int]@,
            ),
            ActionView::HideSelf,
        ],
        picked_layout(key, index, layouts.len())->0 < layouts.len(),
{
}

/// Enter creates the session with the highlighted layout; the digit `d`
/// (`1`–`9`) creates it with the `d`-th layout and highlights that one. Both
/// create under the typed name, then hide the plugin. With no such layout
/// nothing happens.
pub proof fn law_enter_and_digits_pick_layout(
    c: char,
    index: usize,
    name: Seq<char>,
    layouts: Seq<LayoutInfo>,
)
    requires
        '1' <= c <= '9',
    ensures
        ({
            let d = (c as u32 - '1' as u32) as int;
            let enter = layout_key_result(BareKey::Enter, index, name, layouts);
            let digit = layout_key_result(BareKey::Char(c), index, name, layouts);
            &&& index < layouts.len() ==> enter.actions == seq![
                ActionView::SwitchSessionWithLayout(name, layouts[index as int]@),
                ActionView::HideSelf,
            ]
            &&& index >= layouts.len() ==> enter.actions.len() == 0
            &&& d < layouts.len() ==> digit.actions == seq![
                ActionView::SwitchSessionWithLayout(name, layouts[d]@),
                ActionView::HideSelf,
            ]
            &&& d < layouts.len() ==> layout_index_after(BareKey::Char(c), index, layouts.len()) == d
            &&& d >= layouts.len() ==> digit.actions.len() == 0 && layout_index_after(
                BareKey::Char(c),
                index,
                layouts.len(),
            ) == index
            &&& enter.transition is None && digit.transition is None
            &&& layout_index_after(BareKey::Enter, index, layouts.len()) == index
        }),
{
}

/// Esc leaves the picker for the session list without creating anything,
/// and forgets the highlight.
pub proof fn law_esc_leaves_picker(index: usize, name: Seq<char>, layouts: Seq<LayoutInfo>)
    ensures
        layout_key_result(BareKey::Esc, index, name, layouts).actions.len() == 0,
        layout_key_result(BareKey::Esc, index, name, layouts).transition == Some(
            TransitionView::Normal,
        ),
        layout_index_after(BareKey::Esc, index, layouts.len()) == 0,
{
}

} // verus!
