use vstd::prelude::*;

use crate::config::PluginConfig;
use crate::render::draw::{emit, plain_text, prints_view, PrintCommand, PrintView, Text};
use crate::text::byte_len;

verus! {

/// `a - b`, or 0 when `b` exceeds `a`.
pub open spec fn sat_sub(a: int, b: int) -> int {
    if a > b {
        a - b
    } else {
        0
    }
}

/// The x-coordinate that centers a title of `title_len` columns in `cols`.
pub open spec fn header_x(title_len: int, cols: int) -> int {
    sat_sub(cols, title_len) / 2
}

/// Calculates the x-coordinate to horizontally center a title of the given
/// length within the available columns.
pub fn calculate_header_x(title_len: usize, cols: usize) -> (res: usize)
    ensures
        res == header_x(title_len as int, cols as int),
{
    cols.saturating_sub(title_len) / 2
}

/// The title is centered: a title that fits is drawn within the columns,
/// with margins on its two sides that differ by at most one column (the
/// extra one on the right); a wider title starts at the left edge.
pub proof fn law_header_centered(title_len: int, cols: int)
    requires
        0 <= title_len,
        0 <= cols,
    ensures
        title_len <= cols ==> header_x(title_len, cols) + title_len <= cols,
        title_len <= cols ==> 0 <= (cols - title_len - header_x(title_len, cols)) - header_x(
            title_len,
            cols,
        ) <= 1,
        title_len >= cols ==> header_x(title_len, cols) == 0,
{
}

/// What the header prints: the title, centered on the first row, in the
/// header color.
pub open spec fn header_prints(title: Seq<char>, color: usize, cols: usize) -> Seq<PrintView> {
    seq![
        PrintView {
            text: plain_text(title).color_range(color, 0, None),
            x: header_x(vstd::utf8::encode_utf8(title).len() as int, cols as int) as usize,
            y: 0,
            width: None,
        },
    ]
}

/// Renders the centered header title at the top of the plugin pane.
pub fn render_header(config: &PluginConfig, cols: usize) -> (out: Vec<PrintCommand>)
    ensures
        prints_view(out@) == header_prints(config.header_title@, config.header_text_color, cols),
{
    let x = calculate_header_x(byte_len(config.header_title.as_str()), cols);
    let header = Text::from_str(config.header_title.as_str()).color_range(
        config.header_text_color,
        0,
        None,
    );
    let mut out: Vec<PrintCommand> = Vec::new();
    emit(&mut out, header, x, 0, None);
    assert(prints_view(out@) =~= header_prints(config.header_title@, config.header_text_color, cols));
    out
}

} // verus!
