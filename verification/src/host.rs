//! Plain-value models of the host data that the plugin logic reads.
//!
//! The host (Zellij) describes sessions, layouts, tabs, panes and keys with
//! types of its own. The logic of this crate reads only a few fields of
//! them; the types here hold exactly those fields, and the host glue converts
//! the host's values into them one for one.

use vstd::prelude::*;

verus! {

/// A layout that a new session can be started with.
#[derive(Debug, PartialEq, Eq)]
pub enum LayoutInfo {
    /// One of the layouts that ship with the host, by name.
    BuiltIn(String),
    /// A layout read from a file, by path.
    File(String),
    /// A layout fetched from a URL.
    Url(String),
    /// A layout given inline as text.
    Stringified(String),
}

/// The abstract value of a [`LayoutInfo`].
pub enum LayoutView {
    BuiltIn(Seq<char>),
    File(Seq<char>),
    Url(Seq<char>),
    Stringified(Seq<char>),
}

impl LayoutView {
    /// The name that the host shows for a layout.
    pub open spec fn name(self) -> Seq<char> {
        match self {
            LayoutView::BuiltIn(n) => n,
            LayoutView::File(n) => n,
            LayoutView::Url(n) => n,
            LayoutView::Stringified(n) => n,
        }
    }
}

impl View for LayoutInfo {
    type V = LayoutView;

    open spec fn view(&self) -> LayoutView {
        match self {
            LayoutInfo::BuiltIn(n) => LayoutView::BuiltIn(n@),
            LayoutInfo::File(n) => LayoutView::File(n@),
            LayoutInfo::Url(n) => LayoutView::Url(n@),
            LayoutInfo::Stringified(n) => LayoutView::Stringified(n@),
        }
    }
}

impl LayoutInfo {
    /// The layout's name (its path for a file, its address for a URL).
    pub fn name(&self) -> (res: &str)
        ensures
            res@ == self@.name(),
    {
        match self {
            LayoutInfo::BuiltIn(n) => n.as_str(),
            LayoutInfo::File(n) => n.as_str(),
            LayoutInfo::Url(n) => n.as_str(),
            LayoutInfo::Stringified(n) => n.as_str(),
        }
    }

    /// Whether the layout ships with the host.
    pub fn is_builtin(&self) -> (res: bool)
        ensures
            res == (self@ is BuiltIn),
    {
        match self {
            LayoutInfo::BuiltIn(_) => true,
            _ => false,
        }
    }
}

impl Clone for LayoutInfo {
    fn clone(&self) -> (res: Self)
        ensures
            res == *self,
    {
        match self {
            LayoutInfo::BuiltIn(n) => LayoutInfo::BuiltIn(n.clone()),
            LayoutInfo::File(n) => LayoutInfo::File(n.clone()),
            LayoutInfo::Url(n) => LayoutInfo::Url(n.clone()),
            LayoutInfo::Stringified(n) => LayoutInfo::Stringified(n.clone()),
        }
    }
}

/// A key without modifiers, as the host reports it.
#[derive(Clone, Copy, Debug, PartialEq, Eq, Hash)]
pub enum BareKey {
    PageDown,
    PageUp,
    Left,
    Down,
    Up,
    Right,
    Home,
    End,
    Backspace,
    Delete,
    Insert,
    F(u8),
    Char(char),
    Tab,
    Esc,
    Enter,
    CapsLock,
    ScrollLock,
    NumLock,
    PrintScreen,
    Pause,
    Menu,
}

/// The identity of a pane: a terminal or a plugin, by number.
#[derive(Clone, Copy, Debug, PartialEq, Eq, Hash)]
pub enum PaneId {
    Terminal(u32),
    Plugin(u32),
}

/// What the plugin reads of a running session.
#[derive(Debug)]
pub struct SessionInfo {
    /// The session's name.
    pub name: String,
    /// Whether this is the session the plugin runs in.
    pub is_current_session: bool,
    /// The layouts that new sessions can be started with (reported by the
    /// current session).
    pub available_layouts: Vec<LayoutInfo>,
}

/// What the plugin reads of a tab.
#[derive(Clone, Copy, Debug)]
pub struct TabInfo {
    /// The tab's 0-indexed position.
    pub position: usize,
    /// Whether the tab is focused.
    pub active: bool,
}

/// What the plugin reads of a pane.
#[derive(Clone, Copy, Debug)]
pub struct PaneInfo {
    /// The pane's number (terminal or plugin number, as `is_plugin` says).
    pub id: u32,
    /// Whether the pane is a plugin pane.
    pub is_plugin: bool,
    /// Whether the pane has focus.
    pub is_focused: bool,
}

} // verus!
