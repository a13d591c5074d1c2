//! The output of rendering: styled text placed at screen coordinates.
//!
//! Rendering computes a list of [`PrintCommand`]s; the host glue prints each
//! one with the host's text API, in order.

use vstd::prelude::*;

use crate::text::string_of;

verus! {

/// A color applied to a range of a text's positions, from `start` up to
/// `end` (exclusive), or to the end of the text when `end` is `None`.
#[derive(Clone, Copy, Debug, PartialEq, Eq, Structural)]
pub struct ColorRange {
    /// The color index (0–3).
    pub color: usize,
    /// The first position colored.
    pub start: usize,
    /// One past the last position colored, or `None` for the end of the text.
    pub end: Option<usize>,
}

/// A line of text with colored ranges and an optional selection highlight.
#[derive(Debug)]
pub struct Text {
    /// The characters shown.
    pub content: String,
    /// The colored ranges, in the order they were applied.
    pub color_ranges: Vec<ColorRange>,
    /// Whether the line is highlighted as selected.
    pub selected: bool,
}

/// The abstract value of a [`Text`].
pub struct TextView {
    pub content: Seq<char>,
    pub color_ranges: Seq<ColorRange>,
    pub selected: bool,
}

impl View for Text {
    type V = TextView;

    open spec fn view(&self) -> TextView {
        TextView {
            content: self.content@,
            color_ranges: self.color_ranges@,
            selected: self.selected,
        }
    }
}

/// A plain text: no colors, not selected.
pub open spec fn plain_text(content: Seq<char>) -> TextView {
    TextView { content, color_ranges: Seq::empty(), selected: false }
}

impl TextView {
    /// This text with one more colored range.
    pub open spec fn color_range(self, color: usize, start: usize, end: Option<usize>) -> TextView {
        TextView {
            color_ranges: self.color_ranges.push(ColorRange { color, start, end }),
            ..self
        }
    }

    /// This text, highlighted as selected.
    pub open spec fn selected(self) -> TextView {
        TextView { selected: true, ..self }
    }
}

impl Text {
    /// A plain text holding `content`.
    pub fn new(content: String) -> (res: Self)
        ensures
            res@ == plain_text(content@),
    {
        let res = Text { content, color_ranges: Vec::new(), selected: false };
        assert(res@.color_ranges =~= Seq::<ColorRange>::empty());
        res
    }

    /// A plain text holding a copy of `content`.
    pub fn from_str(content: &str) -> (res: Self)
        ensures
            res@ == plain_text(content@),
    {
        Text::new(string_of(content))
    }

    /// Colors the positions from `start` up to `end` (or to the end of the
    /// text when `end` is `None`).
    pub fn color_range(self, color: usize, start: usize, end: Option<usize>) -> (res: Self)
        ensures
            res@ == self@.color_range(color, start, end),
    {
        let mut t = self;
        t.color_ranges.push(ColorRange { color, start, end });
        t
    }

    /// Marks the text as selected.
    pub fn selected(self) -> (res: Self)
        ensures
            res@ == self@.selected(),
    {
        let mut t = self;
        t.selected = true;
        t
    }
}

/// A text to print at column `x`, row `y`, clipped to `width` columns when
/// given.
#[derive(Debug)]
pub struct PrintCommand {
    pub text: Text,
    pub x: usize,
    pub y: usize,
    pub width: Option<usize>,
}

/// The abstract value of a [`PrintCommand`].
pub struct PrintView {
    pub text: TextView,
    pub x: usize,
    pub y: usize,
    pub width: Option<usize>,
}

impl View for PrintCommand {
    type V = PrintView;

    open spec fn view(&self) -> PrintView {
        PrintView { text: self.text@, x: self.x, y: self.y, width: self.width }
    }
}

/// The abstract values of a sequence of print commands.
pub open spec fn prints_view(prints: Seq<PrintCommand>) -> Seq<PrintView> {
    prints.map_values(|p: PrintCommand| p@)
}

/// Appends a print command.
pub fn emit(out: &mut Vec<PrintCommand>, text: Text, x: usize, y: usize, width: Option<usize>)
    ensures
        prints_view(final(out)@) == prints_view(old(out)@).push(
            PrintView { text: text@, x, y, width },
        ),
{
    let ghost before = out@;
    out.push(PrintCommand { text, x, y, width });
    assert(prints_view(out@) =~= prints_view(before).push(PrintView { text: text@, x, y, width }));
}

/// Appends all of `more` to `out`.
pub fn emit_all(out: &mut Vec<PrintCommand>, more: Vec<PrintCommand>)
    ensures
        prints_view(final(out)@) == prints_view(old(out)@) + prints_view(more@),
{
    let ghost before = out@;
    let ghost added = more@;
    let mut more = more;
    out.append(&mut more);
    assert(prints_view(out@) =~= prints_view(before) + prints_view(added));
}

} // verus!
