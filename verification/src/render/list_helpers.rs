use std::borrow::Cow;

use vstd::prelude::*;

use crate::config::{ConfigView, PluginConfig};
use crate::render::draw::{emit, plain_text, prints_view, PrintCommand, PrintView, Text, TextView};
use crate::render::header::sat_sub;
use crate::text::{
    byte_len, decimal, lemma_encode_utf8_concat, pad_left, push_char, push_decimal_padded,
    push_str,
};

verus! {

/// A colored tag appended after a list item name (e.g. "(active)", "(dead)").
#[derive(Debug)]
pub struct ListMarker {
    /// The marker text to display.
    pub text: &'static str,
    /// The color index for this marker.
    pub color: usize,
}

/// A single entry in a rendered list, with an optional trailing marker.
#[derive(Debug)]
pub struct ListItem<'a> {
    /// The display name of this list item.
    pub name: &'a str,
    /// An optional colored marker appended after the name.
    pub marker: Option<ListMarker>,
}

/// The abstract value of a [`ListItem`]: its name, and its marker's text
/// and color.
pub struct ItemView {
    pub name: Seq<char>,
    pub marker: Option<(Seq<char>, usize)>,
}

impl<'a> View for ListItem<'a> {
    type V = ItemView;

    open spec fn view(&self) -> ItemView {
        ItemView {
            name: self.name@,
            marker: match self.marker {
                Some(m) => Some((m.text@, m.color)),
                None => None,
            },
        }
    }
}

/// The abstract values of a sequence of list items.
pub open spec fn items_view(items: Seq<ListItem>) -> Seq<ItemView> {
    items.map_values(|i: ListItem| i@)
}

/// The length of a character sequence in bytes.
pub open spec fn utf8_len(s: Seq<char>) -> int {
    vstd::utf8::encode_utf8(s).len() as int
}

/// The width of the left gutter: the configured padding, but at least 3
/// columns when a selection prefix is shown.
pub open spec fn gutter_width(selection_prefix: Seq<char>, list_padding: usize) -> usize {
    let prefix_width: usize = if selection_prefix.len() == 0 {
        0
    } else {
        3
    };
    if list_padding >= prefix_width {
        list_padding
    } else {
        prefix_width
    }
}

/// Calculates the left gutter width, ensuring enough room for the selection
/// prefix (minimum 3 columns) or using the configured padding.
pub fn calculate_gutter(selection_prefix: &str, list_padding: usize) -> (res: usize)
    ensures
        res == gutter_width(selection_prefix@, list_padding),
{
    let prefix_width: usize = if selection_prefix.is_empty() {
        0
    } else {
        3
    };
    if list_padding >= prefix_width {
        list_padding
    } else {
        prefix_width
    }
}

/// How many items are scrolled out above so that `selected_index` shows in
/// a list of `list_height` rows.
pub open spec fn scroll_offset(selected_index: usize, list_height: usize) -> usize {
    if selected_index >= list_height {
        (selected_index - list_height + 1) as usize
    } else {
        0
    }
}

/// Returns how many items to skip at the top so the selected item stays visible.
pub fn calculate_scroll_offset(selected_index: usize, list_height: usize) -> (res: usize)
    requires
        list_height > 0 || selected_index < usize::MAX,
    ensures
        res == scroll_offset(selected_index, list_height),
{
    if selected_index >= list_height {
        selected_index - list_height + 1
    } else {
        0
    }
}

/// The rows left for the list below the header and above the footer, at
/// least 1.
pub open spec fn list_height(rows: usize) -> usize {
    if rows > 6 {
        (rows - 5) as usize
    } else {
        1
    }
}

/// Returns the number of list rows available after subtracting header and
/// footer chrome, with a minimum of 1.
pub fn calculate_list_height(rows: usize) -> (res: usize)
    ensures
        res == list_height(rows),
{
    let h = rows.saturating_sub(5);
    if h >= 1 {
        h
    } else {
        1
    }
}

/// The text of one list line: the 1-based index right-aligned in
/// `idx_width` columns and a space (when index numbers are shown), the
/// name, and the marker's text.
pub open spec fn line_content(
    index: int,
    item: ItemView,
    show_index_numbers: bool,
    idx_width: usize,
) -> Seq<char> {
    if !show_index_numbers && item.marker is None {
        item.name
    } else {
        let idx_part = if show_index_numbers {
            pad_left(decimal((index + 1) as nat), idx_width as nat).push(' ')
        } else {
            Seq::empty()
        };
        let marker_text = match item.marker {
            Some((t, _)) => t,
            None => Seq::empty(),
        };
        idx_part + item.name + marker_text
    }
}

/// Builds the display string for a single list line, including an optional
/// index number prefix and trailing marker text. Returns a borrowed reference
/// when no prefix or marker is needed, avoiding allocation.
pub fn build_line_content<'a>(
    index: usize,
    item: &ListItem<'a>,
    show_index_numbers: bool,
    idx_width: usize,
) -> (res: Cow<'a, str>)
    requires
        show_index_numbers ==> index < usize::MAX,
    ensures
        res@ == line_content(index as int, item@, show_index_numbers, idx_width),
        (res is Borrowed) <==> (!show_index_numbers && item.marker is None),
{
    if !show_index_numbers && item.marker.is_none() {
        return Cow::Borrowed(item.name);
    }
    let mut out = String::new();
    if show_index_numbers {
        push_decimal_padded(&mut out, index + 1, idx_width);
        push_char(&mut out, ' ');
    }
    let ghost idx_part = out@;
    push_str(&mut out, item.name);
    match &item.marker {
        Some(m) => {
            push_str(&mut out, m.text);
            assert(out@ =~= idx_part + item.name@ + m.text@);
        },
        None => {
            assert(out@ =~= idx_part + item.name@ + Seq::<char>::empty());
        },
    }
    Cow::Owned(out)
}

/// The text of a line, borrowed from where it is held.
fn cow_str<'b>(content: &'b Cow<'_, str>) -> (res: &'b str)
    ensures
        res@ == content@,
{
    match content {
        Cow::Borrowed(b) => b,
        Cow::Owned(o) => o.as_str(),
    }
}

/// The gutter leaves room for the configured padding, and for the
/// selection prefix (3 columns) whenever one is set.
pub proof fn law_gutter_fits_prefix(selection_prefix: Seq<char>, list_padding: usize)
    ensures
        gutter_width(selection_prefix, list_padding) >= list_padding,
        selection_prefix.len() > 0 ==> gutter_width(selection_prefix, list_padding) >= 3,
        gutter_width(selection_prefix, list_padding) == list_padding || gutter_width(
            selection_prefix,
            list_padding,
        ) == 3,
{
}

/// The list always has at least one row, and otherwise takes every row but
/// the five of the header and footer.
pub proof fn law_list_height_at_least_one(rows: usize)
    ensures
        list_height(rows) >= 1,
        rows >= 6 ==> list_height(rows) == rows - 5,
{
}

/// Scrolling keeps the selected item visible: it lies within the window of
/// `list_height` rows that starts at the offset, and nothing is scrolled
/// while it fits on the first screen.
pub proof fn law_selected_stays_visible(selected_index: usize, list_height: usize)
    requires
        list_height > 0,
    ensures
        scroll_offset(selected_index, list_height) <= selected_index,
        selected_index < scroll_offset(selected_index, list_height) + list_height,
        selected_index < list_height ==> scroll_offset(selected_index, list_height) == 0,
{
}

/// A marker ends its line, so the color range of the marker (the last
/// bytes of the line, as many as the marker has) covers exactly its text.
pub proof fn law_marker_ends_line(
    index: int,
    item: ItemView,
    show_index_numbers: bool,
    idx_width: usize,
)
    requires
        item.marker is Some,
    ensures
        ({
            let content = line_content(index, item, show_index_numbers, idx_width);
            let text = marker_text(item);
            &&& text.len() <= content.len()
            &&& content.subrange(content.len() - text.len(), content.len() as int) == text
            &&& utf8_len(text) <= utf8_len(content)
            &&& vstd::utf8::encode_utf8(content).subrange(
                utf8_len(content) - utf8_len(text),
                utf8_len(content),
            ) == vstd::utf8::encode_utf8(text)
        }),
{
    let content = line_content(index, item, show_index_numbers, idx_width);
    let text = marker_text(item);
    let ip = if show_index_numbers {
        pad_left(decimal((index + 1) as nat), idx_width as nat).push(' ')
    } else {
        Seq::empty()
    };
    let head = ip + item.name;
    assert(content == head + text);
    assert(content.subrange(content.len() - text.len(), content.len() as int) =~= text);
    lemma_encode_utf8_concat(head, text);
    let e = vstd::utf8::encode_utf8(content);
    assert(e == vstd::utf8::encode_utf8(head) + vstd::utf8::encode_utf8(text));
    assert(e.subrange(utf8_len(content) - utf8_len(text), utf8_len(content))
        =~= vstd::utf8::encode_utf8(text));
}

/// The text of an item's marker (empty when it has none).
pub open spec fn marker_text(item: ItemView) -> Seq<char> {
    match item.marker {
        Some((t, _)) => t,
        None => Seq::empty(),
    }
}

/// Where a non-empty list is drawn: the gutter, the visible rows, how many
/// items are scrolled out above, and the width of the index column.
pub struct ListLayout {
    pub gutter: usize,
    pub height: usize,
    pub offset: usize,
    pub idx_width: usize,
}

/// The layout of a list of `count` items with `selected_index` highlighted.
pub open spec fn list_layout(count: nat, selected_index: usize, cfg: ConfigView, rows: usize) -> ListLayout {
    let height = list_height(rows);
    ListLayout {
        gutter: gutter_width(cfg.selection_prefix, cfg.list_padding),
        height,
        offset: scroll_offset(selected_index, height),
        idx_width: if !cfg.show_index_numbers {
            0
        } else if count <= 9 {
            1
        } else if count <= 99 {
            2
        } else {
            3
        },
    }
}

/// What one visible list line prints: the selection prefix (for the
/// selected item, when configured), then the line itself.
pub open spec fn item_prints(
    i: int,
    item: ItemView,
    selected_index: usize,
    cfg: ConfigView,
    cols: usize,
    lay: ListLayout,
) -> Seq<PrintView> {
    let y = (2 + i - lay.offset) as usize;
    let is_selected = i == selected_index;
    let prefix = if is_selected && cfg.selection_prefix.len() > 0 {
        seq![
            PrintView {
                text: plain_text(cfg.selection_prefix),
                x: sat_sub(lay.gutter as int, 3) as usize,
                y,
                width: None,
            },
        ]
    } else {
        Seq::empty()
    };
    let content = line_content(i, item, cfg.show_index_numbers, lay.idx_width);
    let t0 = plain_text(content);
    let t1 = if is_selected && cfg.show_selection_highlight {
        t0.selected()
    } else {
        t0
    };
    let t2 = if cfg.show_index_numbers {
        t1.color_range(cfg.index_number_color, 0, Some(lay.idx_width))
    } else {
        t1
    };
    let t3 = match item.marker {
        Some((text, color)) => t2.color_range(
            color,
            (utf8_len(content) - utf8_len(text)) as usize,
            Some(utf8_len(content) as usize),
        ),
        None => t2,
    };
    prefix.push(
        PrintView {
            text: t3,
            x: lay.gutter,
            y,
            width: Some(sat_sub(cols as int, lay.gutter as int) as usize),
        },
    )
}

/// What the visible lines from `lay.offset` up to `end` print.
pub open spec fn rows_prints(
    items: Seq<ItemView>,
    selected_index: usize,
    cfg: ConfigView,
    cols: usize,
    lay: ListLayout,
    end: int,
) -> Seq<PrintView>
    decreases end - lay.offset,
{
    if end <= lay.offset {
        Seq::empty()
    } else {
        rows_prints(items, selected_index, cfg, cols, lay, end - 1) + item_prints(
            end - 1,
            items[end - 1],
            selected_index,
            cfg,
            cols,
            lay,
        )
    }
}

/// One past the last visible item.
pub open spec fn visible_end(count: nat, lay: ListLayout) -> int {
    if lay.offset + lay.height < count {
        lay.offset + lay.height
    } else if lay.offset < count {
        count as int
    } else {
        lay.offset as int
    }
}

/// What a list prints: the empty-state message when there are no items,
/// otherwise the visible lines.
pub open spec fn list_prints(
    items: Seq<ItemView>,
    selected_index: usize,
    empty_message: Seq<char>,
    cfg: ConfigView,
    rows: usize,
    cols: usize,
) -> Seq<PrintView> {
    let lay = list_layout(items.len(), selected_index, cfg, rows);
    if items.len() == 0 {
        seq![
            PrintView {
                text: plain_text(empty_message),
                x: lay.gutter,
                y: 2,
                width: Some(sat_sub(cols as int, lay.gutter as int) as usize),
            },
        ]
    } else {
        rows_prints(items, selected_index, cfg, cols, lay, visible_end(items.len(), lay))
    }
}

/// The line that item `i` prints (the last of its prints).
pub open spec fn line_print(
    i: int,
    item: ItemView,
    selected_index: usize,
    cfg: ConfigView,
    cols: usize,
    lay: ListLayout,
) -> PrintView {
    item_prints(i, item, selected_index, cfg, cols, lay).last()
}

proof fn lemma_rows_prints_window(
    items: Seq<ItemView>,
    selected_index: usize,
    cfg: ConfigView,
    cols: usize,
    lay: ListLayout,
    end: int,
)
    requires
        lay.offset <= end,
        end == lay.offset || end <= items.len(),
        end - lay.offset <= lay.height,
        lay.height + 2 <= usize::MAX,
    ensures
        forall|k: int|
            0 <= k < rows_prints(items, selected_index, cfg, cols, lay, end).len() ==> 2 <= (
            #[trigger] rows_prints(items, selected_index, cfg, cols, lay, end)[k]).y < 2 + (end
                - lay.offset),
        forall|i: int|
            lay.offset <= i < end ==> rows_prints(items, selected_index, cfg, cols, lay, end).contains(
                #[trigger] line_print(i, items[i], selected_index, cfg, cols, lay),
            ),
    decreases end - lay.offset,
{
    if end > lay.offset {
        let prev = rows_prints(items, selected_index, cfg, cols, lay, end - 1);
        let here = item_prints(end - 1, items[end - 1], selected_index, cfg, cols, lay);
        let all = rows_prints(items, selected_index, cfg, cols, lay, end);
        lemma_rows_prints_window(items, selected_index, cfg, cols, lay, end - 1);
        assert(all == prev + here);
        assert forall|k: int| 0 <= k < all.len() implies 2 <= (#[trigger] all[k]).y < 2 + (end
            - lay.offset) by {
            if k < prev.len() {
                assert(all[k] == prev[k]);
            } else {
                assert(all[k] == here[k - prev.len()]);
            }
        }
        assert forall|i: int| lay.offset <= i < end implies all.contains(
            #[trigger] line_print(i, items[i], selected_index, cfg, cols, lay),
        ) by {
            if i < end - 1 {
                let k = choose|k: int|
                    0 <= k < prev.len() && prev[k] == line_print(i, items[i], selected_index, cfg, cols, lay);
                assert(all[k] == prev[k]);
            } else {
                assert(all[all.len() - 1] == here.last());
            }
        }
    }
}

/// A non-empty list draws only inside its window, the rows from 2 on, as
/// many as the list height; and it always draws the selected item's line,
/// at its row in the window and highlighted when so configured.
pub proof fn law_list_draws_selected_in_window(
    items: Seq<ItemView>,
    selected_index: usize,
    empty_message: Seq<char>,
    cfg: ConfigView,
    rows: usize,
    cols: usize,
)
    requires
        items.len() > 0,
    ensures
        ({
            let out = list_prints(items, selected_index, empty_message, cfg, rows, cols);
            let lay = list_layout(items.len(), selected_index, cfg, rows);
            &&& forall|k: int| 0 <= k < out.len() ==> 2 <= (#[trigger] out[k]).y < 2 + list_height(rows)
            &&& selected_index < items.len() ==> exists|k: int|
                0 <= k < out.len() && (#[trigger] out[k]).x == lay.gutter && out[k].y == 2
                    + selected_index - lay.offset && out[k].text.content == line_content(
                    selected_index as int,
                    items[selected_index as int],
                    cfg.show_index_numbers,
                    lay.idx_width,
                ) && out[k].text.selected == cfg.show_selection_highlight
        }),
{
    let lay = list_layout(items.len(), selected_index, cfg, rows);
    let end = visible_end(items.len(), lay);
    let out = list_prints(items, selected_index, empty_message, cfg, rows, cols);
    assert(lay.height >= 1);
    assert(lay.height + 2 <= usize::MAX);
    lemma_rows_prints_window(items, selected_index, cfg, cols, lay, end);
    if selected_index < items.len() {
        assert(lay.offset <= selected_index < lay.offset + lay.height);
        assert(selected_index < end);
        let line = line_print(selected_index as int, items[selected_index as int], selected_index, cfg, cols, lay);
        assert(out.contains(line));
        let k = choose|k: int| 0 <= k < out.len() && out[k] == line;
        assert(out[k] == line);
    }
}

/// Renders a scrollable list of items with selection highlighting, index
/// numbers, markers, and an empty-state message.
pub fn render_list(
    items: &[ListItem<'_>],
    selected_index: usize,
    empty_message: &str,
    config: &PluginConfig,
    rows: usize,
    cols: usize,
) -> (out: Vec<PrintCommand>)
    ensures
        prints_view(out@) == list_prints(
            items_view(items@),
            selected_index,
            empty_message@,
            config@,
            rows,
            cols,
        ),
{
    let ghost iv = items_view(items@);
    let ghost cfg = config@;
    let gutter = calculate_gutter(config.selection_prefix.as_str(), config.list_padding);
    let mut out: Vec<PrintCommand> = Vec::new();
    if items.len() == 0 {
        emit(&mut out, Text::from_str(empty_message), gutter, 2, Some(cols.saturating_sub(gutter)));
        assert(prints_view(out@) =~= list_prints(iv, selected_index, empty_message@, cfg, rows, cols));
        return out;
    }
    let height = calculate_list_height(rows);
    let offset = calculate_scroll_offset(selected_index, height);
    let total = items.len();
    let idx_width: usize = if config.show_index_numbers {
        if total <= 9 {
            1
        } else if total <= 99 {
            2
        } else {
            3
        }
    } else {
        0
    };
    let ghost lay = list_layout(iv.len(), selected_index, cfg, rows);
    assert(lay == ListLayout { gutter, height, offset, idx_width });
    let end: usize = if offset >= total {
        offset
    } else if height < total - offset {
        offset + height
    } else {
        total
    };
    assert(end == visible_end(iv.len(), lay));
    let mut i: usize = offset;
    while i < end
        invariant
            iv == items_view(items@),
            cfg == config@,
            lay == (ListLayout { gutter, height, offset, idx_width }),
            height == list_height(rows),
            height >= 1,
            offset <= i <= end,
            end <= total || end == offset,
            end <= offset || end - offset <= height,
            height < usize::MAX - 2,
            total == items@.len(),
            prints_view(out@) == rows_prints(iv, selected_index, cfg, cols, lay, i as int),
        decreases end - i,
    {
        let item = &items[i];
        let y = (i - offset) + 2;
        let is_selected = i == selected_index;
        let ghost before = prints_view(out@);
        if is_selected && !config.selection_prefix.as_str().is_empty() {
            emit(
                &mut out,
                Text::from_str(config.selection_prefix.as_str()),
                gutter.saturating_sub(3),
                y,
                None,
            );
        }
        let content = build_line_content(i, item, config.show_index_numbers, idx_width);
        let content_str = cow_str(&content);
        let content_len = byte_len(content_str);
        let ghost content_view = content@;
        let mut text = Text::from_str(content_str);
        if is_selected && config.show_selection_highlight {
            text = text.selected();
        }
        if config.show_index_numbers {
            text = text.color_range(config.index_number_color, 0, Some(idx_width));
        }
        match &item.marker {
            Some(marker) => {
                let marker_len = byte_len(marker.text);
                proof {
                    let ip = if config.show_index_numbers {
                        pad_left(decimal((i + 1) as nat), idx_width as nat).push(' ')
                    } else {
                        Seq::empty()
                    };
                    assert(content_view == (ip + item.name@) + marker.text@);
                    lemma_encode_utf8_concat(ip + item.name@, marker.text@);
                }
                text = text.color_range(marker.color, content_len - marker_len, Some(content_len));
            },
            None => {},
        }
        emit(&mut out, text, gutter, y, Some(cols.saturating_sub(gutter)));
        proof {
            assert(iv[i as int] == items@[i as int]@);
            assert(prints_view(out@) =~= before + item_prints(
                i as int,
                iv[i as int],
                selected_index,
                cfg,
                cols,
                lay,
            ));
        }
        i = i + 1;
    }
    out
}

} // verus!
