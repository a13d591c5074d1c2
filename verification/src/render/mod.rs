//! Rendering: what the plugin draws, as print commands for the host.

use vstd::prelude::*;

use crate::config::PluginConfig;
use crate::handlers::input::InputHandler;
use crate::handlers::layout_select::LayoutSelectHandler;
use crate::handlers::normal::NormalHandler;
use crate::render::draw::{emit_all, prints_view, PrintCommand, PrintView};
use crate::render::footer::{footer_prints, hint_view, render_footer};
use crate::render::header::{header_prints, render_header};
use crate::render::layout_select::{layout_select_prints, render_layout_select};
use crate::render::session_list::{render_session_list, session_list_prints};
use crate::session_store::{entries_view, layouts_view, SessionStore};
use crate::types::Mode;

/// Print commands and styled text.
pub mod draw;
/// Footer rendering with mode-specific shortcuts and input prompts.
pub mod footer;
/// Centered header title rendering.
pub mod header;
/// Layout selection list rendering.
pub mod layout_select;
/// Shared list rendering utilities (scrolling, gutters, line formatting).
pub mod list_helpers;
/// Session list rendering for Normal/NewSession/RenameSession modes.
pub mod session_list;

verus! {

/// Whether the pane is large enough to draw anything.
pub open spec fn drawable(rows: usize, cols: usize) -> bool {
    rows >= 4 && cols >= 10
}

/// What the whole UI prints: the header, the list of the mode (sessions,
/// or layouts when picking one), and the footer; nothing when the pane is
/// too small.
pub open spec fn frame_prints(
    mode: Mode,
    store: SessionStore,
    normal: NormalHandler,
    input: InputHandler,
    layout_handler: LayoutSelectHandler,
    config: PluginConfig,
    rows: usize,
    cols: usize,
) -> Seq<PrintView> {
    if !drawable(rows, cols) {
        Seq::empty()
    } else {
        let cfg = config@;
        let list = match mode {
            Mode::LayoutSelect => layout_select_prints(
                layouts_view(store.available_layouts@),
                layout_handler.selected_index,
                cfg,
                rows,
                cols,
            ),
            _ => session_list_prints(
                entries_view(store.entries@),
                normal.selected_index,
                cfg,
                rows,
                cols,
            ),
        };
        header_prints(cfg.header_title, cfg.header_text_color, cols) + list + footer_prints(
            mode,
            hint_view(normal.hint_message),
            input.buffer@,
            layout_handler.session_name@,
            cfg,
            rows,
            cols,
        )
    }
}

/// Renders the full plugin UI (header, list content, and footer) for the
/// current mode. Skips rendering if the terminal is too small.
pub fn render(
    mode: &Mode,
    store: &SessionStore,
    normal: &NormalHandler,
    input: &InputHandler,
    layout_handler: &LayoutSelectHandler,
    config: &PluginConfig,
    rows: usize,
    cols: usize,
) -> (out: Vec<PrintCommand>)
    ensures
        prints_view(out@) == frame_prints(
            *mode,
            *store,
            *normal,
            *input,
            *layout_handler,
            *config,
            rows,
            cols,
        ),
{
    let mut out: Vec<PrintCommand> = Vec::new();
    if rows < 4 || cols < 10 {
        assert(prints_view(out@) =~= Seq::<PrintView>::empty());
        return out;
    }
    let header = render_header(config, cols);
    emit_all(&mut out, header);
    let list = match mode {
        Mode::Normal | Mode::NewSession | Mode::RenameSession => render_session_list(
            store,
            normal,
            config,
            rows,
            cols,
        ),
        Mode::LayoutSelect => render_layout_select(store, layout_handler, config, rows, cols),
    };
    emit_all(&mut out, list);
    let footer = render_footer(mode, normal, input, layout_handler, config, rows, cols);
    emit_all(&mut out, footer);
    assert(prints_view(out@) =~= frame_prints(
        *mode,
        *store,
        *normal,
        *input,
        *layout_handler,
        *config,
        rows,
        cols,
    ));
    out
}

} // verus!
