use vstd::prelude::*;

use crate::config::{ConfigView, PluginConfig};
use crate::handlers::layout_select::LayoutSelectHandler;
use crate::host::LayoutView;
use crate::render::draw::{prints_view, PrintCommand, PrintView};
use crate::render::list_helpers::{items_view, list_prints, render_list, ItemView, ListItem, ListMarker};
use crate::session_store::{layouts_view, SessionStore};

verus! {

/// The marker shown after built-in layouts.
pub const BUILTIN_MARKER: &'static str = " (built-in)";

/// The message shown when there are no layouts.
pub const NO_LAYOUTS_MESSAGE: &'static str = "No layouts available";

/// The list item of a layout: its name, marked when built in.
pub open spec fn layout_item(layout: LayoutView, cfg: ConfigView) -> ItemView {
    ItemView {
        name: layout.name(),
        marker: if layout is BuiltIn {
            Some((BUILTIN_MARKER@, cfg.builtin_marker_color))
        } else {
            None
        },
    }
}

/// The list items of a sequence of layouts.
pub open spec fn layout_items(layouts: Seq<LayoutView>, cfg: ConfigView) -> Seq<ItemView> {
    layouts.map_values(|l: LayoutView| layout_item(l, cfg))
}

/// Converts available layouts into [`ListItem`]s, marking built-in layouts
/// with a colored "(built-in)" tag.
pub fn build_layout_items<'a>(store: &'a SessionStore, config: &PluginConfig) -> (items: Vec<
    ListItem<'a>,
>)
    ensures
        items_view(items@) == layout_items(layouts_view(store.available_layouts@), config@),
{
    let ghost expected = layout_items(layouts_view(store.available_layouts@), config@);
    let mut items: Vec<ListItem<'a>> = Vec::new();
    let n = store.available_layouts.len();
    let mut i: usize = 0;
    while i < n
        invariant
            n == store.available_layouts@.len(),
            expected == layout_items(layouts_view(store.available_layouts@), config@),
            i <= n,
            items_view(items@) == expected.take(i as int),
        decreases n - i,
    {
        let layout = &store.available_layouts[i];
        let marker = if layout.is_builtin() {
            Some(ListMarker { text: BUILTIN_MARKER, color: config.builtin_marker_color })
        } else {
            None
        };
        let ghost before = items@;
        items.push(ListItem { name: layout.name(), marker });
        proof {
            assert(expected[i as int] == layout_item(layout@, config@));
            assert(items_view(items@) =~= items_view(before).push(expected[i as int]));
            assert(expected.take(i + 1) =~= expected.take(i as int).push(expected[i as int]));
        }
        i = i + 1;
    }
    assert(expected.take(n as int) =~= expected);
    items
}

/// What the layout picker prints.
pub open spec fn layout_select_prints(
    layouts: Seq<LayoutView>,
    selected_index: usize,
    cfg: ConfigView,
    rows: usize,
    cols: usize,
) -> Seq<PrintView> {
    list_prints(layout_items(layouts, cfg), selected_index, NO_LAYOUTS_MESSAGE@, cfg, rows, cols)
}

/// Renders the layout selection list for the LayoutSelect mode.
pub fn render_layout_select(
    store: &SessionStore,
    handler: &LayoutSelectHandler,
    config: &PluginConfig,
    rows: usize,
    cols: usize,
) -> (out: Vec<PrintCommand>)
    ensures
        prints_view(out@) == layout_select_prints(
            layouts_view(store.available_layouts@),
            handler.selected_index,
            config@,
            rows,
            cols,
        ),
{
    let items = build_layout_items(store, config);
    render_list(items.as_slice(), handler.selected_index, NO_LAYOUTS_MESSAGE, config, rows, cols)
}

/// Row `i` of the layout picker shows layout `i` by name, marked
/// " (built-in)" in the built-in-marker color exactly when it ships with the
/// host.
pub proof fn law_rows_show_layouts(layouts: Seq<LayoutView>, cfg: ConfigView)
    ensures
        layout_items(layouts, cfg).len() == layouts.len(),
        forall|i: int|
            0 <= i < layouts.len() ==> {
                let item = #[trigger] layout_items(layouts, cfg)[i];
                &&& item.name == layouts[i].name()
                &&& item.marker == if layouts[i] is BuiltIn {
                    Some((" (built-in)"@, cfg.builtin_marker_color))
                } else {
                    None
                }
            },
{
}

} // verus!
