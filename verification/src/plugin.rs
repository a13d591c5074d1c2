//! The plugin's state and its reaction to host events.
//!
//! The host drives the plugin with events. For each event the plugin
//! decides what to do; some decisions need a fresh snapshot of the session
//! list, which only the host can give. [`PluginState::update`] therefore
//! answers an event with an [`UpdateStep`]: actions to run first, whether to
//! pull a snapshot (which the host glue then hands to
//! [`PluginState::apply_session_snapshot`]), actions to run after that, and
//! whether to re-render.

use std::time::Duration;

use vstd::prelude::*;

use crate::config::PluginConfig;
use crate::handlers::input::{input_buffer_after, input_key_result, InputHandler};
use crate::handlers::layout_select::{layout_index_after, layout_key_result, picked_layout, LayoutSelectHandler};
use crate::handlers::lifecycle::handle_load;
use crate::handlers::normal::{
    clamped, index_in_bounds, normal_index_after, normal_key_result, normal_sets_hint, position_of,
    NormalHandler, RENAME_HINT,
};
use crate::handlers::visibility::{active_tab_position, active_tab_position_spec, handle_visible, visible_result};
use crate::host::{BareKey, PaneId, PaneInfo, SessionInfo, TabInfo};
use crate::session_store::{
    entries_view, first_current, layouts_replaced, layouts_view, same_listing, unified_listing,
    SessionStore,
};
use crate::types::{actions_view, ActionView, Mode, ModeTransition, PluginAction, TransitionView};

verus! {

/// A host event, reduced to what the plugin reads of it.
pub enum PluginEvent {
    /// A key press; `has_no_modifiers` tells whether it came without
    /// modifier keys.
    Key { key: BareKey, has_no_modifiers: bool },
    /// The tabs of the session changed.
    TabUpdate(Vec<TabInfo>),
    /// The plugin pane became visible or hidden.
    Visible(bool),
    /// The answer to the permission request: whether it was granted.
    PermissionRequestResult(bool),
    /// The panes of the session changed.
    PaneUpdate(Vec<PaneInfo>),
    /// An armed timer fired.
    Timer,
    /// Any other event.
    Other,
}

/// What the host glue does for an event, in order.
pub struct UpdateStep {
    /// Actions to execute first.
    pub actions: Vec<PluginAction>,
    /// Whether to pull a session snapshot next and hand it to
    /// [`PluginState::apply_session_snapshot`].
    pub refresh: bool,
    /// Actions to execute after the snapshot.
    pub actions_after: Vec<PluginAction>,
    /// Whether to re-render (re-render also when the snapshot changed the
    /// store).
    pub render: bool,
}

/// The seconds between two session list refreshes while visible.
pub const REFRESH_INTERVAL_SECS: u64 = 1;

/// Top-level plugin state.
pub struct PluginState {
    /// The current UI mode.
    pub mode: Mode,
    /// Session and layout data from the host.
    pub store: SessionStore,
    /// State for Normal mode key handling.
    pub normal: NormalHandler,
    /// State for text input modes (NewSession, RenameSession).
    pub input: InputHandler,
    /// State for the layout picker.
    pub layout_select: LayoutSelectHandler,
    /// User-configurable display settings.
    pub config: PluginConfig,
    /// The plugin's own pane ID, used to move the pane between tabs.
    pub plugin_pane_id: Option<PaneId>,
    /// The 0-indexed position of the currently active tab.
    pub active_tab_position: Option<usize>,
    /// Whether the plugin pane is currently visible. Gates polling.
    pub is_visible: bool,
    /// Whether a refresh timer is currently armed. Prevents double-arming.
    pub refresh_timer_armed: bool,
    /// Whether the host has granted the permissions we requested. The
    /// session list cannot be pulled before this is `true`.
    pub permissions_granted: bool,
}

/// The mode-related part of the state: the mode, the input buffer, and the
/// layout picker.
pub struct UiView {
    pub mode: Mode,
    pub buffer: Seq<char>,
    pub layout_index: usize,
    pub layout_name: Seq<char>,
}

/// The effect of a mode transition on the mode-related state.
pub open spec fn after_transition(t: Option<TransitionView>, ui: UiView) -> UiView {
    match t {
        None => ui,
        Some(TransitionView::Normal) => UiView { mode: Mode::Normal, ..ui },
        Some(TransitionView::NewSession) => UiView {
            mode: Mode::NewSession,
            buffer: Seq::empty(),
            ..ui
        },
        Some(TransitionView::RenameSession) => UiView {
            mode: Mode::RenameSession,
            buffer: Seq::empty(),
            ..ui
        },
        Some(TransitionView::LayoutSelect(name)) => UiView {
            mode: Mode::LayoutSelect,
            layout_index: 0,
            layout_name: name,
            ..ui
        },
    }
}

/// Whether the plugin's own pane is among the focused panes.
pub open spec fn plugin_focused(plugin_pane_id: Option<PaneId>, panes: Seq<PaneInfo>) -> bool {
    match plugin_pane_id {
        Some(PaneId::Plugin(id)) => exists|i: int|
            0 <= i < panes.len() && (#[trigger] panes[i]).is_plugin && panes[i].id == id
                && panes[i].is_focused,
        _ => false,
    }
}

/// Applies a [`ModeTransition`] by updating the current mode and resetting
/// the relevant handler state.
pub fn apply_transition(
    transition: ModeTransition,
    mode: &mut Mode,
    input: &mut InputHandler,
    layout_select: &mut LayoutSelectHandler,
)
    ensures
        ({
            let before = UiView {
                mode: *old(mode),
                buffer: old(input).buffer@,
                layout_index: old(layout_select).selected_index,
                layout_name: old(layout_select).session_name@,
            };
            let after = after_transition(Some(transition@), before);
            &&& *final(mode) == after.mode
            &&& final(input).buffer@ == after.buffer
            &&& final(layout_select).selected_index == after.layout_index
            &&& final(layout_select).session_name@ == after.layout_name
        }),
{
    match transition {
        ModeTransition::Normal => {
            *mode = Mode::Normal;
        },
        ModeTransition::NewSession => {
            input.clear();
            *mode = Mode::NewSession;
        },
        ModeTransition::RenameSession => {
            input.clear();
            *mode = Mode::RenameSession;
        },
        ModeTransition::LayoutSelect(name) => {
            layout_select.start(name);
            *mode = Mode::LayoutSelect;
        },
    }
}

impl Default for PluginState {
    fn default() -> (res: Self)
        ensures
            res.mode == Mode::Normal,
            res.store.entries@.len() == 0,
            res.store.available_layouts@.len() == 0,
            res.normal.selected_index == 0,
            res.normal.hint_message is None,
            res.input.buffer@.len() == 0,
            res.layout_select.selected_index == 0,
            res.layout_select.session_name@.len() == 0,
            res.config@ == crate::config::default_config(),
            res.plugin_pane_id is None,
            res.active_tab_position is None,
            !res.is_visible,
            !res.refresh_timer_armed,
            !res.permissions_granted,
            res.wf(),
    {
        PluginState {
            mode: Mode::Normal,
            store: SessionStore::default(),
            normal: NormalHandler::default(),
            input: InputHandler::default(),
            layout_select: LayoutSelectHandler::default(),
            config: PluginConfig::default(),
            plugin_pane_id: None,
            active_tab_position: None,
            is_visible: false,
            refresh_timer_armed: false,
            permissions_granted: false,
        }
    }
}

impl PluginState {
    /// The state's invariant: the highlighted session is within the list
    /// (an empty list is highlighted at 0).
    pub open spec fn wf(&self) -> bool {
        index_in_bounds(self.normal.selected_index, self.store.entries@.len())
    }

    /// The mode-related part of the state.
    pub open spec fn ui(&self) -> UiView {
        UiView {
            mode: self.mode,
            buffer: self.input.buffer@,
            layout_index: self.layout_select.selected_index,
            layout_name: self.layout_select.session_name@,
        }
    }

    /// The name of the highlighted session, if any.
    pub open spec fn highlighted_name(&self) -> Option<Seq<char>> {
        if self.normal.selected_index < self.store.entries@.len() {
            Some(self.store.entries@[self.normal.selected_index as int]@.name())
        } else {
            None
        }
    }

    /// Initializes the configuration and the plugin's own pane id; returns
    /// the load-time actions (subscribe, then request permissions).
    pub fn load(&mut self, config: PluginConfig, plugin_id: u32) -> (actions: Vec<PluginAction>)
        ensures
            final(self).config == config,
            final(self).plugin_pane_id == Some(PaneId::Plugin(plugin_id)),
            actions_view(actions@) == seq![ActionView::Subscribe, ActionView::RequestPermissions],
            final(self).mode == old(self).mode,
            final(self).store == old(self).store,
            final(self).normal == old(self).normal,
            final(self).input == old(self).input,
            final(self).layout_select == old(self).layout_select,
            final(self).active_tab_position == old(self).active_tab_position,
            final(self).is_visible == old(self).is_visible,
            final(self).refresh_timer_armed == old(self).refresh_timer_armed,
            final(self).permissions_granted == old(self).permissions_granted,
    {
        self.config = config;
        self.plugin_pane_id = Some(PaneId::Plugin(plugin_id));
        handle_load()
    }

    /// Arms a refresh timer if one isn't already pending. Idempotent — safe
    /// to call repeatedly. Returns the action to execute, or `None` if a
    /// timer is already armed.
    pub fn arm_refresh_timer(&mut self) -> (res: Option<PluginAction>)
        ensures
            old(self).refresh_timer_armed ==> res is None,
            !old(self).refresh_timer_armed ==> (res matches Some(a) && a@ == ActionView::SetTimeout(
                REFRESH_INTERVAL_SECS,
            )),
            final(self).refresh_timer_armed,
            final(self).mode == old(self).mode,
            final(self).store == old(self).store,
            final(self).normal == old(self).normal,
            final(self).input == old(self).input,
            final(self).layout_select == old(self).layout_select,
            final(self).is_visible == old(self).is_visible,
            final(self).permissions_granted == old(self).permissions_granted,
            final(self).plugin_pane_id == old(self).plugin_pane_id,
            final(self).active_tab_position == old(self).active_tab_position,
            final(self).config == old(self).config,
    {
        if self.refresh_timer_armed {
            return None;
        }
        self.refresh_timer_armed = true;
        Some(PluginAction::SetTimeout(REFRESH_INTERVAL_SECS))
    }

    /// Applies a fresh session snapshot to the store, keeping the highlight
    /// on the same session by name. Returns whether the store changed.
    pub fn apply_session_snapshot(
        &mut self,
        live_sessions: Vec<SessionInfo>,
        resurrectable_sessions: Vec<(String, Duration)>,
    ) -> (changed: bool)
        ensures
            ({
                let listing = unified_listing(live_sessions@, resurrectable_sessions@);
                let relisted = !same_listing(entries_view(old(self).store.entries@), listing);
                let new_layouts = layouts_replaced(live_sessions@, old(self).store.available_layouts@);
                let now = entries_view(final(self).store.entries@);
                &&& changed == (relisted || new_layouts)
                &&& relisted ==> entries_view(final(self).store.entries@) == listing
                &&& !relisted ==> final(self).store.entries@ == old(self).store.entries@
                &&& new_layouts ==> layouts_view(final(self).store.available_layouts@)
                    == layouts_view(
                    live_sessions@[first_current(live_sessions@) as int].available_layouts@,
                )
                &&& !new_layouts ==> final(self).store.available_layouts@ == old(
                    self,
                ).store.available_layouts@
                &&& changed ==> match old(self).highlighted_name() {
                    Some(name) => match position_of(now, name) {
                        Some(p) => final(self).normal.selected_index == p,
                        None => final(self).normal.selected_index == clamped(
                            old(self).normal.selected_index,
                            now.len() as usize,
                        ),
                    },
                    None => final(self).normal.selected_index == clamped(
                        old(self).normal.selected_index,
                        now.len() as usize,
                    ),
                }
                &&& !changed ==> final(self).normal.selected_index == old(
                    self,
                ).normal.selected_index
            }),
            old(self).wf() ==> final(self).wf(),
            final(self).normal.hint_message == old(self).normal.hint_message,
            final(self).config == old(self).config,
            final(self).mode == old(self).mode,
            final(self).input == old(self).input,
            final(self).layout_select == old(self).layout_select,
            final(self).is_visible == old(self).is_visible,
            final(self).refresh_timer_armed == old(self).refresh_timer_armed,
            final(self).permissions_granted == old(self).permissions_granted,
            final(self).plugin_pane_id == old(self).plugin_pane_id,
            final(self).active_tab_position == old(self).active_tab_position,
    {
        let previous_name: Option<String> = match self.store.selected_session(
            self.normal.selected_index,
        ) {
            Some(s) => Some(crate::text::string_of(s.name())),
            None => None,
        };
        let changed = self.store.update(live_sessions, resurrectable_sessions);
        if changed {
            match previous_name {
                Some(name) => self.normal.preserve_selection(name.as_str(), &self.store),
                None => self.normal.clamp_index(self.store.total_count()),
            }
            proof {
                let entries = entries_view(self.store.entries@);
                if let Some(p) = position_of(entries, old(self).highlighted_name().unwrap_or(
                    Seq::empty(),
                )) {
                    lemma_position_of_in_bounds(entries, old(self).highlighted_name().unwrap_or(
                        Seq::empty(),
                    ));
                }
                assert(entries.len() == self.store.entries@.len());
            }
        }
        changed
    }

    /// Runs the current mode's key handler and applies its mode transition.
    fn handle_key_event(&mut self, key: BareKey) -> (step: UpdateStep)
        ensures
            key_step(*old(self), *final(self), key, true, step),
            final(self).store == old(self).store,
            final(self).config == old(self).config,
            final(self).plugin_pane_id == old(self).plugin_pane_id,
    {
        let mode = self.mode;
        let r = match mode {
            Mode::Normal => self.normal.handle_key(key, &self.store),
            Mode::NewSession | Mode::RenameSession => self.input.handle_key(key, &mode),
            Mode::LayoutSelect => self.layout_select.handle_key(
                key,
                self.store.available_layouts.as_slice(),
            ),
        };
        assert(self.config == old(self).config);
        let render = r.render;
        let actions = r.actions;
        if let Some(transition) = r.transition {
            apply_transition(transition, &mut self.mode, &mut self.input, &mut self.layout_select);
        }
        assert(self.config == old(self).config);
        UpdateStep { actions, refresh: false, actions_after: Vec::new(), render }
    }

    /// Handles a host event: runs the mode's key handler, tracks tabs,
    /// visibility, focus and permissions, and decides when the session list
    /// is pulled and the refresh timer armed.
    pub fn update(&mut self, event: PluginEvent) -> (step: UpdateStep)
        ensures
            step.refresh ==> final(self).permissions_granted,
            old(self).wf() ==> final(self).wf(),
            final(self).store == old(self).store,
            final(self).config == old(self).config,
            final(self).plugin_pane_id == old(self).plugin_pane_id,
            match event {
                PluginEvent::Key { key, has_no_modifiers } => key_step(
                    *old(self),
                    *final(self),
                    key,
                    has_no_modifiers,
                    step,
                ),
                PluginEvent::TabUpdate(tabs) => {
                    &&& final(self).active_tab_position == active_tab_position_spec(tabs@)
                    &&& quiet_step(step)
                    &&& unchanged_but_tabs(*old(self), *final(self))
                },
                PluginEvent::Visible(visible) => {
                    let r = visible_result(
                        visible,
                        old(self).plugin_pane_id,
                        old(self).active_tab_position,
                    );
                    &&& actions_view(step.actions@) == r.actions
                    &&& step.render == r.render
                    &&& final(self).is_visible == visible
                    &&& step.refresh == (visible && old(self).permissions_granted)
                    &&& timer_after(*old(self), *final(self), visible, step)
                    &&& unchanged_but_polling(*old(self), *final(self))
                    &&& final(self).permissions_granted == old(self).permissions_granted
                },
                PluginEvent::PermissionRequestResult(granted) => {
                    let grant = granted && !old(self).permissions_granted;
                    &&& step.actions@.len() == 0
                    &&& step.actions_after@.len() == 0
                    &&& !step.render
                    &&& step.refresh == grant
                    &&& final(self).permissions_granted == (old(self).permissions_granted
                        || granted)
                    &&& final(self).is_visible == old(self).is_visible
                    &&& final(self).refresh_timer_armed == old(self).refresh_timer_armed
                    &&& unchanged_but_polling(*old(self), *final(self))
                },
                PluginEvent::PaneUpdate(panes) => {
                    let focused = plugin_focused(old(self).plugin_pane_id, panes@);
                    let gained = focused && !old(self).is_visible;
                    &&& step.actions@.len() == 0
                    &&& !step.render
                    &&& final(self).is_visible == focused
                    &&& step.refresh == (gained && old(self).permissions_granted)
                    &&& timer_after(*old(self), *final(self), gained, step)
                    &&& unchanged_but_polling(*old(self), *final(self))
                    &&& final(self).permissions_granted == old(self).permissions_granted
                },
                PluginEvent::Timer => {
                    let poll = old(self).is_visible;
                    &&& step.actions@.len() == 0
                    &&& !step.render
                    &&& final(self).is_visible == old(self).is_visible
                    &&& step.refresh == (poll && old(self).permissions_granted)
                    &&& poll ==> final(self).refresh_timer_armed && step.actions_after@.len() == 1
                        && actions_view(step.actions_after@)[0] == ActionView::SetTimeout(
                        REFRESH_INTERVAL_SECS,
                    )
                    &&& !poll ==> !final(self).refresh_timer_armed && step.actions_after@.len()
                        == 0
                    &&& unchanged_but_polling(*old(self), *final(self))
                    &&& final(self).permissions_granted == old(self).permissions_granted
                },
                PluginEvent::Other => {
                    &&& quiet_step(step)
                    &&& *final(self) == *old(self)
                },
            },
    {
        match event {
            PluginEvent::Key { key, has_no_modifiers } => {
                if !has_no_modifiers {
                    return quiet();
                }
                self.handle_key_event(key)
            },
            PluginEvent::TabUpdate(tab_infos) => {
                self.active_tab_position = active_tab_position(tab_infos.as_slice());
                quiet()
            },
            PluginEvent::Visible(visible) => {
                let r = handle_visible(visible, self.plugin_pane_id, self.active_tab_position);
                self.is_visible = visible;
                let mut actions_after: Vec<PluginAction> = Vec::new();
                if visible {
                    if let Some(action) = self.arm_refresh_timer() {
                        actions_after.push(action);
                    }
                }
                UpdateStep {
                    actions: r.actions,
                    refresh: visible && self.permissions_granted,
                    actions_after,
                    render: r.render,
                }
            },
            PluginEvent::PermissionRequestResult(granted) => {
                if !granted || self.permissions_granted {
                    return quiet();
                }
                self.permissions_granted = true;
                UpdateStep {
                    actions: Vec::new(),
                    refresh: true,
                    actions_after: Vec::new(),
                    render: false,
                }
            },
            PluginEvent::PaneUpdate(panes) => {
                let focused = match self.plugin_pane_id {
                    Some(PaneId::Plugin(id)) => any_focused_plugin(panes.as_slice(), id),
                    _ => false,
                };
                if focused == self.is_visible {
                    return quiet();
                }
                self.is_visible = focused;
                let mut actions_after: Vec<PluginAction> = Vec::new();
                if focused {
                    if let Some(action) = self.arm_refresh_timer() {
                        actions_after.push(action);
                    }
                }
                UpdateStep {
                    actions: Vec::new(),
                    refresh: focused && self.permissions_granted,
                    actions_after,
                    render: false,
                }
            },
            PluginEvent::Timer => {
                self.refresh_timer_armed = false;
                if !self.is_visible {
                    return quiet();
                }
                let mut actions_after: Vec<PluginAction> = Vec::new();
                if let Some(action) = self.arm_refresh_timer() {
                    actions_after.push(action);
                }
                UpdateStep {
                    actions: Vec::new(),
                    refresh: self.permissions_granted,
                    actions_after,
                    render: false,
                }
            },
            PluginEvent::Other => quiet(),
        }
    }
}

/// A step that does nothing.
pub open spec fn quiet_step(step: UpdateStep) -> bool {
    step.actions@.len() == 0 && step.actions_after@.len() == 0 && !step.refresh && !step.render
}

fn quiet() -> (step: UpdateStep)
    ensures
        quiet_step(step),
{
    UpdateStep { actions: Vec::new(), refresh: false, actions_after: Vec::new(), render: false }
}

/// Whether some pane is the focused plugin pane `id`.
fn any_focused_plugin(panes: &[PaneInfo], id: u32) -> (res: bool)
    ensures
        res == plugin_focused(Some(PaneId::Plugin(id)), panes@),
{
    let n = panes.len();
    let mut i: usize = 0;
    while i < n
        invariant
            n == panes@.len(),
            i <= n,
            forall|j: int|
                0 <= j < i ==> !((#[trigger] panes@[j]).is_plugin && panes@[j].id == id
                    && panes@[j].is_focused),
        decreases n - i,
    {
        if panes[i].is_plugin && panes[i].id == id && panes[i].is_focused {
            assert(panes@[i as int].is_plugin);
            return true;
        }
        i = i + 1;
    }
    false
}

/// Everything but the active tab position is unchanged.
pub open spec fn unchanged_but_tabs(before: PluginState, after: PluginState) -> bool {
    &&& after.mode == before.mode
    &&& after.store == before.store
    &&& after.normal == before.normal
    &&& after.input == before.input
    &&& after.layout_select == before.layout_select
    &&& after.is_visible == before.is_visible
    &&& after.refresh_timer_armed == before.refresh_timer_armed
    &&& after.permissions_granted == before.permissions_granted
}

/// The user-facing state (mode, handlers, tabs) is unchanged; only polling
/// flags may change.
pub open spec fn unchanged_but_polling(before: PluginState, after: PluginState) -> bool {
    &&& after.mode == before.mode
    &&& after.store == before.store
    &&& after.normal == before.normal
    &&& after.input == before.input
    &&& after.layout_select == before.layout_select
    &&& after.active_tab_position == before.active_tab_position
}

/// After gaining visibility the refresh timer is armed (an action only when
/// none was pending); otherwise nothing is armed.
pub open spec fn timer_after(before: PluginState, after: PluginState, arm: bool, step: UpdateStep) -> bool {
    if arm {
        &&& after.refresh_timer_armed
        &&& before.refresh_timer_armed ==> step.actions_after@.len() == 0
        &&& !before.refresh_timer_armed ==> step.actions_after@.len() == 1 && actions_view(
            step.actions_after@,
        )[0] == ActionView::SetTimeout(REFRESH_INTERVAL_SECS)
    } else {
        &&& after.refresh_timer_armed == before.refresh_timer_armed
        &&& step.actions_after@.len() == 0
    }
}

/// What a key press does to the state, by mode.
pub open spec fn key_step(
    before: PluginState,
    after: PluginState,
    key: BareKey,
    has_no_modifiers: bool,
    step: UpdateStep,
) -> bool {
    if !has_no_modifiers {
        quiet_step(step) && after == before
    } else {
        &&& !step.refresh
        &&& step.actions_after@.len() == 0
        &&& after.is_visible == before.is_visible
        &&& after.refresh_timer_armed == before.refresh_timer_armed
        &&& after.permissions_granted == before.permissions_granted
        &&& after.active_tab_position == before.active_tab_position
        &&& match before.mode {
            Mode::Normal => {
                let entries = entries_view(before.store.entries@);
                let index = before.normal.selected_index;
                let r = normal_key_result(key, index, before.normal.hint_message is Some, entries);
                &&& step.render == r.render
                &&& actions_view(step.actions@) == r.actions
                &&& after.normal.selected_index == normal_index_after(key, index, entries)
                &&& normal_sets_hint(key, index, entries) ==> after.normal.hint_message == Some(
                    RENAME_HINT,
                )
                &&& !normal_sets_hint(key, index, entries) ==> after.normal.hint_message is None
                &&& after.ui() == after_transition(r.transition, before.ui())
            },
            Mode::NewSession | Mode::RenameSession => {
                let r = input_key_result(before.input.buffer@, key, before.mode);
                &&& step.render == r.render
                &&& actions_view(step.actions@) == r.actions
                &&& after.normal == before.normal
                &&& after.ui() == after_transition(
                    r.transition,
                    UiView { buffer: input_buffer_after(before.input.buffer@, key), ..before.ui() },
                )
            },
            Mode::LayoutSelect => {
                let layouts = before.store.available_layouts@;
                let index = before.layout_select.selected_index;
                let name = before.layout_select.session_name@;
                let r = layout_key_result(key, index, name, layouts);
                let cleared = key == BareKey::Esc || picked_layout(key, index, layouts.len()) is Some;
                &&& step.render == r.render
                &&& actions_view(step.actions@) == r.actions
                &&& after.normal == before.normal
                &&& after.ui() == after_transition(
                    r.transition,
                    UiView {
                        layout_index: layout_index_after(key, index, layouts.len()),
                        layout_name: if cleared {
                            Seq::empty()
                        } else {
                            name
                        },
                        ..before.ui()
                    },
                )
            },
        }
    }
}

proof fn lemma_position_of_in_bounds(entries: Seq<crate::session_store::EntryView>, name: Seq<char>)
    ensures
        position_of(entries, name) matches Some(p) ==> p < entries.len(),
    decreases entries.len(),
{
    if entries.len() > 0 {
        lemma_position_of_in_bounds(entries.drop_first(), name);
    }
}

} // verus!
