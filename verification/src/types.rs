//! Core enums, actions, and handler result types.

use vstd::prelude::*;

use crate::host::{LayoutInfo, LayoutView, PaneId, SessionInfo};

verus! {

/// The current UI mode of the plugin.
#[derive(Clone, Copy, Debug, PartialEq, Eq, Structural)]
pub enum Mode {
    /// Browsing the session list.
    Normal,
    /// Typing a name for a new session.
    NewSession,
    /// Typing a new name for the current session.
    RenameSession,
    /// Picking a layout for a newly created session.
    LayoutSelect,
}

impl Default for Mode {
    fn default() -> (res: Self)
        ensures
            res == Mode::Normal,
    {
        Mode::Normal
    }
}

/// A declarative mode change returned by handlers.
#[derive(Debug)]
pub enum ModeTransition {
    /// Return to the normal session list.
    Normal,
    /// Enter the new-session input prompt.
    NewSession,
    /// Enter the rename-session input prompt.
    RenameSession,
    /// Enter layout selection with the given session name.
    LayoutSelect(String),
}

/// The abstract value of a [`ModeTransition`].
pub enum TransitionView {
    Normal,
    NewSession,
    RenameSession,
    LayoutSelect(Seq<char>),
}

impl View for ModeTransition {
    type V = TransitionView;

    open spec fn view(&self) -> TransitionView {
        match self {
            ModeTransition::Normal => TransitionView::Normal,
            ModeTransition::NewSession => TransitionView::NewSession,
            ModeTransition::RenameSession => TransitionView::RenameSession,
            ModeTransition::LayoutSelect(n) => TransitionView::LayoutSelect(n@),
        }
    }
}

/// A reference to either an active or resurrectable (dead) session.
pub enum SelectedSession<'a> {
    /// A currently running session.
    Active(&'a SessionInfo),
    /// A resurrectable session identified by name.
    Dead(&'a str),
}

impl<'a> SelectedSession<'a> {
    /// The session's name.
    pub open spec fn name_view(&self) -> Seq<char> {
        match self {
            SelectedSession::Active(s) => s.name@,
            SelectedSession::Dead(name) => name@,
        }
    }

    /// Returns the session name regardless of active/dead status.
    pub fn name(&self) -> (res: &str)
        ensures
            res@ == self.name_view(),
    {
        match self {
            SelectedSession::Active(s) => s.name.as_str(),
            SelectedSession::Dead(name) => name,
        }
    }
}

/// A side-effecting action to be executed against the host.
#[derive(Debug, PartialEq)]
pub enum PluginAction {
    /// Hide the plugin pane.
    HideSelf,
    /// Switch to the session with the given name.
    SwitchSession(String),
    /// Switch to a session with the given name and layout.
    SwitchSessionWithLayout(String, LayoutInfo),
    /// Kill the sessions with the given names.
    KillSessions(Vec<String>),
    /// Permanently delete a dead (resurrectable) session.
    DeleteDeadSession(String),
    /// Rename the current session.
    RenameSession(String),
    /// Request the permissions needed by this plugin.
    RequestPermissions,
    /// Subscribe to the host events this plugin listens for.
    Subscribe,
    /// Move a pane to the specified tab position.
    MoveToTab(PaneId, usize),
    /// Show the plugin pane, focus it, and switch to its tab.
    ShowSelf,
    /// Arm a one-shot timer that fires a timer event after the given number
    /// of whole seconds.
    SetTimeout(u64),
}

impl Clone for PluginAction {
    fn clone(&self) -> (res: Self)
        ensures
            res@ == self@,
    {
        match self {
            PluginAction::HideSelf => PluginAction::HideSelf,
            PluginAction::SwitchSession(n) => PluginAction::SwitchSession(n.clone()),
            PluginAction::SwitchSessionWithLayout(n, l) => PluginAction::SwitchSessionWithLayout(
                n.clone(),
                l.clone(),
            ),
            PluginAction::KillSessions(ns) => {
                let mut copy: Vec<String> = Vec::new();
                let mut i: usize = 0;
                while i < ns.len()
                    invariant
                        i <= ns@.len(),
                        copy@.map_values(|s: String| s@) == ns@.take(i as int).map_values(
                            |s: String| s@,
                        ),
                    decreases ns@.len() - i,
                {
                    let ghost before = copy@;
                    let c = ns[i].clone();
                    assert(c == ns@[i as int]);
                    copy.push(c);
                    assert(ns@.take(i + 1) =~= ns@.take(i as int).push(ns@[i as int]));
                    assert(copy@ =~= before.push(c));
                    assert(copy@.map_values(|s: String| s@) =~= before.map_values(|s: String| s@).push(c@));
                    assert(ns@.take(i + 1).map_values(|s: String| s@) =~= ns@.take(i as int).map_values(|s: String| s@).push(c@));
                    i = i + 1;
                }
                assert(ns@.take(i as int) =~= ns@);
                PluginAction::KillSessions(copy)
            },
            PluginAction::DeleteDeadSession(n) => PluginAction::DeleteDeadSession(n.clone()),
            PluginAction::RenameSession(n) => PluginAction::RenameSession(n.clone()),
            PluginAction::RequestPermissions => PluginAction::RequestPermissions,
            PluginAction::Subscribe => PluginAction::Subscribe,
            PluginAction::MoveToTab(p, t) => PluginAction::MoveToTab(*p, *t),
            PluginAction::ShowSelf => PluginAction::ShowSelf,
            PluginAction::SetTimeout(s) => PluginAction::SetTimeout(*s),
        }
    }
}

/// The abstract value of a [`PluginAction`].
pub enum ActionView {
    HideSelf,
    SwitchSession(Seq<char>),
    SwitchSessionWithLayout(Seq<char>, LayoutView),
    KillSessions(Seq<Seq<char>>),
    DeleteDeadSession(Seq<char>),
    RenameSession(Seq<char>),
    RequestPermissions,
    Subscribe,
    MoveToTab(PaneId, usize),
    ShowSelf,
    SetTimeout(u64),
}

impl View for PluginAction {
    type V = ActionView;

    open spec fn view(&self) -> ActionView {
        match self {
            PluginAction::HideSelf => ActionView::HideSelf,
            PluginAction::SwitchSession(n) => ActionView::SwitchSession(n@),
            PluginAction::SwitchSessionWithLayout(n, l) => ActionView::SwitchSessionWithLayout(
                n@,
                l@,
            ),
            PluginAction::KillSessions(ns) => ActionView::KillSessions(
                ns@.map_values(|s: String| s@),
            ),
            PluginAction::DeleteDeadSession(n) => ActionView::DeleteDeadSession(n@),
            PluginAction::RenameSession(n) => ActionView::RenameSession(n@),
            PluginAction::RequestPermissions => ActionView::RequestPermissions,
            PluginAction::Subscribe => ActionView::Subscribe,
            PluginAction::MoveToTab(p, t) => ActionView::MoveToTab(*p, *t),
            PluginAction::ShowSelf => ActionView::ShowSelf,
            PluginAction::SetTimeout(s) => ActionView::SetTimeout(*s),
        }
    }
}

/// The abstract values of a sequence of actions.
pub open spec fn actions_view(actions: Seq<PluginAction>) -> Seq<ActionView> {
    actions.map_values(|a: PluginAction| a@)
}

/// The result returned by every key handler, carrying render intent,
/// actions to execute, and an optional mode transition.
pub struct HandlerResult {
    /// Whether the UI should re-render after this event.
    pub render: bool,
    /// Actions to execute against the host.
    pub actions: Vec<PluginAction>,
    /// An optional mode transition to apply after executing actions.
    pub transition: Option<ModeTransition>,
}

/// The abstract value of a [`HandlerResult`].
pub struct ResultView {
    pub render: bool,
    pub actions: Seq<ActionView>,
    pub transition: Option<TransitionView>,
}

impl View for HandlerResult {
    type V = ResultView;

    open spec fn view(&self) -> ResultView {
        ResultView {
            render: self.render,
            actions: actions_view(self.actions@),
            transition: match self.transition {
                Some(t) => Some(t@),
                None => None,
            },
        }
    }
}

/// A result with the given render flag, no actions and no transition.
pub open spec fn plain_result(render: bool) -> ResultView {
    ResultView { render, actions: Seq::empty(), transition: None }
}

impl ResultView {
    /// This result with one more action at the end.
    pub open spec fn with_action(self, a: ActionView) -> ResultView {
        ResultView { actions: self.actions.push(a), ..self }
    }

    /// This result with its transition set.
    pub open spec fn with_transition(self, t: TransitionView) -> ResultView {
        ResultView { transition: Some(t), ..self }
    }
}

impl HandlerResult {
    /// Creates a result that triggers a re-render with no actions.
    pub fn render() -> (res: Self)
        ensures
            res@ == plain_result(true),
    {
        let res = Self { render: true, actions: Vec::new(), transition: None };
        assert(res@.actions =~= Seq::<ActionView>::empty());
        res
    }

    /// Creates a result that skips re-rendering with no actions.
    pub fn no_render() -> (res: Self)
        ensures
            res@ == plain_result(false),
    {
        let res = Self { render: false, actions: Vec::new(), transition: None };
        assert(res@.actions =~= Seq::<ActionView>::empty());
        res
    }

    /// Creates a result that conditionally re-renders based on `condition`.
    pub fn render_if(condition: bool) -> (res: Self)
        ensures
            res@ == plain_result(condition),
    {
        let res = Self { render: condition, actions: Vec::new(), transition: None };
        assert(res@.actions =~= Seq::<ActionView>::empty());
        res
    }

    /// Appends a [`PluginAction`] to this result.
    pub fn with_action(self, action: PluginAction) -> (res: Self)
        ensures
            res@ == self@.with_action(action@),
    {
        let mut s = self;
        s.actions.push(action);
        assert(actions_view(s.actions@) =~= actions_view(self.actions@).push(action@));
        s
    }

    /// Sets the mode transition for this result.
    pub fn with_transition(self, transition: ModeTransition) -> (res: Self)
        ensures
            res@ == self@.with_transition(transition@),
    {
        let mut s = self;
        s.transition = Some(transition);
        s
    }
}

} // verus!
