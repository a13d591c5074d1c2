use vstd::prelude::*;

use crate::config::{ConfigView, PluginConfig};
use crate::handlers::input::InputHandler;
use crate::handlers::layout_select::LayoutSelectHandler;
use crate::handlers::normal::NormalHandler;
use crate::render::draw::{
    emit, plain_text, prints_view, ColorRange, PrintCommand, PrintView, Text, TextView,
};
use crate::render::header::sat_sub;
use crate::text::{byte_len, push_str, string_of};
use crate::types::Mode;

verus! {

/// The UTF-8 bytes of a character sequence.
pub open spec fn utf8(s: Seq<char>) -> Seq<u8> {
    vstd::utf8::encode_utf8(s)
}

/// Whether `k` occurs in `t` at byte `pos`.
pub open spec fn occurs_at(t: Seq<u8>, k: Seq<u8>, pos: int) -> bool {
    0 <= pos && pos + k.len() <= t.len() && t.subrange(pos, pos + k.len()) == k
}

/// Whether the occurrence of `k` at `pos` is set off as a shortcut: preceded
/// by a space and followed by `:` (` X: `), preceded by `/` and followed by
/// `:` (`/X: `), or preceded by a space and followed by `/` (` X/`).
pub open spec fn shortcut_delimited(t: Seq<u8>, k: Seq<u8>, pos: int) -> bool {
    let before: Option<u8> = if pos > 0 {
        Some(t[pos - 1])
    } else {
        None
    };
    let after: Option<u8> = if pos + k.len() < t.len() {
        Some(t[pos + k.len()])
    } else {
        None
    };
    (before == Some(0x20u8) && after == Some(0x3au8)) || (before == Some(0x2fu8) && after == Some(
        0x3au8,
    )) || (before == Some(0x20u8) && after == Some(0x2fu8))
}

/// Whether `k` occurs in `t` at `pos` as a shortcut key.
pub open spec fn shortcut_at(t: Seq<u8>, k: Seq<u8>, pos: int) -> bool {
    occurs_at(t, k, pos) && shortcut_delimited(t, k, pos)
}

/// The first shortcut occurrence of `k` in `t` at or after `pos`.
pub open spec fn first_shortcut_from(t: Seq<u8>, k: Seq<u8>, pos: int) -> Option<nat>
    decreases t.len() + 1 - pos,
{
    if pos < 0 || pos + k.len() > t.len() {
        None
    } else if shortcut_at(t, k, pos) {
        Some(pos as nat)
    } else {
        first_shortcut_from(t, k, pos + 1)
    }
}

/// A found shortcut occurrence lies within the text, and is the first one.
pub proof fn lemma_first_shortcut_from_found(t: Seq<u8>, k: Seq<u8>, pos: int)
    ensures
        first_shortcut_from(t, k, pos) matches Some(p) ==> pos <= p && shortcut_at(t, k, p as int)
            && p + k.len() <= t.len() && forall|q: int| pos <= q < p ==> !shortcut_at(t, k, q),
        pos >= 0 && first_shortcut_from(t, k, pos) is None ==> forall|q: int|
            pos <= q ==> !shortcut_at(t, k, q),
    decreases t.len() + 1 - pos,
{
    if pos < 0 || pos + k.len() > t.len() {
    } else if shortcut_at(t, k, pos) {
    } else {
        lemma_first_shortcut_from_found(t, k, pos + 1);
    }
}

/// The byte offset of the first shortcut occurrence of `key` in `text`.
pub open spec fn first_shortcut(text: Seq<char>, key: Seq<char>) -> Option<nat> {
    first_shortcut_from(utf8(text), utf8(key), 0)
}

/// A shortcut key is found at its first occurrence that is set off as a
/// shortcut (` X: `, `/X: ` or ` X/`), and only there; when there is none,
/// nothing is found.
pub proof fn law_shortcut_is_first_delimited(text: Seq<char>, key: Seq<char>)
    ensures
        first_shortcut(text, key) matches Some(p) ==> shortcut_at(utf8(text), utf8(key), p as int)
            && forall|q: int| 0 <= q < p ==> !shortcut_at(utf8(text), utf8(key), q),
        first_shortcut(text, key) is None ==> forall|q: int|
            0 <= q ==> !shortcut_at(utf8(text), utf8(key), q),
{
    lemma_first_shortcut_from_found(utf8(text), utf8(key), 0);
}

/// Whether a key can be searched for: it is not empty and starts with an
/// ASCII character.
pub open spec fn searchable_key(key: Seq<char>) -> bool {
    key.len() > 0 && (key[0] as u32) < 0x80
}

/// Returns the byte offset of a shortcut key within a footer string.
/// Searches for three exact patterns:
/// - ` X: ` — a standalone key (e.g. ` Enter: `, ` n: `)
/// - `/X: ` — second key in a slash pair (e.g. `/k: `)
/// - ` X/` — first key in a slash pair (e.g. ` j/`)
pub fn find_shortcut_key(text: &str, key: &str) -> (res: Option<usize>)
    requires
        searchable_key(key@),
    ensures
        res == match first_shortcut(text@, key@) {
            Some(p) => Some(p as usize),
            None => None::<usize>,
        },
        res matches Some(p) ==> p + utf8(key@).len() <= utf8(text@).len(),
{
    proof {
        lemma_first_shortcut_from_found(utf8(text@), utf8(key@), 0);
    }
    let t = text.as_bytes();
    let k = key.as_bytes();
    let tlen = t.len();
    let klen = k.len();
    let mut pos: usize = 0;
    assert(utf8(key@).len() > 0) by {
        assert(utf8(key@) == vstd::utf8::encode_scalar(key@[0] as u32) + utf8(key@.drop_first()));
    }
    while pos <= tlen && klen <= tlen - pos
        invariant
            klen >= 1,
            t@ == utf8(text@),
            k@ == utf8(key@),
            tlen == t@.len(),
            klen == k@.len(),
            first_shortcut(text@, key@) == first_shortcut_from(t@, k@, pos as int),
        decreases tlen + 1 - pos,
    {
        let mut j: usize = 0;
        let mut matches = true;
        while j < klen
            invariant
                tlen == t@.len(),
                klen == k@.len(),
                pos + klen <= tlen,
                j <= klen,
                matches == (forall|q: int| 0 <= q < j ==> t@[pos + q] == k@[q]),
            decreases klen - j,
        {
            if t[pos + j] != k[j] {
                matches = false;
            }
            j = j + 1;
        }
        assert(matches == occurs_at(t@, k@, pos as int)) by {
            if matches {
                assert(t@.subrange(pos as int, pos + klen) =~= k@);
            } else {
                let q = choose|q: int| 0 <= q < klen && t@[pos + q] != k@[q];
                assert(t@.subrange(pos as int, pos + klen)[q] != k@[q]);
            }
        }
        if matches {
            let after = pos + klen;
            let delimited = if pos > 0 && after < tlen {
                let b = t[pos - 1];
                let a = t[after];
                (b == 0x20u8 && a == 0x3au8) || (b == 0x2fu8 && a == 0x3au8) || (b == 0x20u8 && a
                    == 0x2fu8)
            } else {
                false
            };
            if delimited {
                return Some(pos);
            }
        }
        pos = pos + 1;
    }
    None
}

/// The key views of a slice of keys.
pub open spec fn keys_view(keys: Seq<&str>) -> Seq<Seq<char>> {
    keys.map_values(|k: &str| k@)
}

/// The colored ranges that shortcut coloring adds to `content` for `keys`,
/// in key order: one range per key found, covering the key's bytes.
pub open spec fn shortcut_ranges(content: Seq<char>, keys: Seq<Seq<char>>, color: usize) -> Seq<
    ColorRange,
>
    decreases keys.len(),
{
    if keys.len() == 0 {
        Seq::empty()
    } else {
        let rest = shortcut_ranges(content, keys.drop_last(), color);
        match first_shortcut(content, keys.last()) {
            Some(p) => rest.push(
                ColorRange { color, start: p as usize, end: Some((p + utf8(keys.last()).len()) as usize) },
            ),
            None => rest,
        }
    }
}

/// Applies shortcut key coloring to a [`Text`] value for each key that
/// occurs as a shortcut in the text content.
pub fn color_shortcut_keys(text: Text, content: &str, color: usize, keys: &[&str]) -> (res: Text)
    requires
        forall|i: int| 0 <= i < keys@.len() ==> searchable_key(#[trigger] keys@[i]@),
    ensures
        res@ == (TextView {
            color_ranges: text@.color_ranges + shortcut_ranges(content@, keys_view(keys@), color),
            ..text@
        }),
{
    let mut t = text;
    let n = keys.len();
    let mut i: usize = 0;
    let ghost kv = keys_view(keys@);
    assert(kv.take(0) =~= Seq::<Seq<char>>::empty());
    while i < n
        invariant
            n == keys@.len(),
            kv == keys_view(keys@),
            i <= n,
            forall|i: int| 0 <= i < keys@.len() ==> searchable_key(#[trigger] keys@[i]@),
            t@ == (TextView {
                color_ranges: text@.color_ranges + shortcut_ranges(content@, kv.take(i as int), color),
                ..text@
            }),
        decreases n - i,
    {
        let key = keys[i];
        assert(kv.take(i + 1).drop_last() =~= kv.take(i as int));
        assert(kv.take(i + 1).last() == key@);
        let ghost before = t@.color_ranges;
        match find_shortcut_key(content, key) {
            Some(start) => {
                let klen = byte_len(key);
                let clen = byte_len(content);
                proof {
                    lemma_first_shortcut_from_found(utf8(content@), utf8(key@), 0);
                }
                t = t.color_range(color, start, Some(start + klen));
                assert(t@.color_ranges =~= text@.color_ranges + shortcut_ranges(
                    content@,
                    kv.take(i + 1),
                    color,
                ));
            },
            None => {
                assert(text@.color_ranges + shortcut_ranges(content@, kv.take(i + 1), color)
                    =~= text@.color_ranges + shortcut_ranges(content@, kv.take(i as int), color));
            },
        }
        i = i + 1;
    }
    assert(kv.take(n as int) =~= kv);
    t
}

/// The prompt of the new-session input.
pub const NEW_SESSION_LABEL: &'static str = "  New session name: ";
/// The prompt of the rename input.
pub const RENAME_LABEL: &'static str = "  Rename session: ";
/// The action shortcuts of Normal mode.
pub const NORMAL_ACTIONS: &'static str = "  Enter: switch  n: new  r: rename  d: delete  Esc: close";
/// The navigation help of Normal mode.
pub const NORMAL_NAVIGATION: &'static str = "  j/k: navigate  1-9: quick switch";
/// The shortcuts of the layout picker.
pub const LAYOUT_SELECT_HINT: &'static str = "  Enter: create  Esc: cancel  j/k: navigate";

/// What an input-mode footer prints: the prompt label, the buffer and a
/// cursor, with the label colored; then the hint line with the Enter and Esc
/// shortcuts colored.
pub open spec fn input_footer_prints(
    label: Seq<char>,
    action_verb: Seq<char>,
    buffer: Seq<char>,
    cfg: ConfigView,
    footer_y: usize,
    cols: usize,
) -> Seq<PrintView> {
    let prompt = plain_text(label + buffer + "|"@).color_range(
        cfg.prompt_label_color,
        0,
        Some(utf8(label).len() as usize),
    );
    let hint_content = "  Enter: "@ + action_verb + "  Esc: cancel"@;
    let hint = TextView {
        color_ranges: shortcut_ranges(hint_content, seq!["Enter"@, "Esc"@], cfg.shortcut_key_color),
        ..plain_text(hint_content)
    };
    seq![
        PrintView { text: prompt, x: 0, y: footer_y, width: Some(cols) },
        PrintView { text: hint, x: 0, y: (footer_y + 1) as usize, width: Some(cols) },
    ]
}

/// Renders an input-mode footer with a prompt label, the current buffer
/// contents, and an action hint line.
pub fn render_input_footer(
    label: &str,
    action_verb: &str,
    input: &InputHandler,
    config: &PluginConfig,
    footer_y: usize,
    cols: usize,
) -> (out: Vec<PrintCommand>)
    requires
        footer_y < usize::MAX,
    ensures
        prints_view(out@) == input_footer_prints(
            label@,
            action_verb@,
            input.buffer@,
            config@,
            footer_y,
            cols,
        ),
{
    let mut prompt_content = string_of(label);
    push_str(&mut prompt_content, input.buffer.as_str());
    push_str(&mut prompt_content, "|");
    let prompt = Text::new(prompt_content).color_range(
        config.prompt_label_color,
        0,
        Some(byte_len(label)),
    );
    let mut hint_content = string_of("  Enter: ");
    push_str(&mut hint_content, action_verb);
    push_str(&mut hint_content, "  Esc: cancel");
    let keys: [&str; 2] = ["Enter", "Esc"];
    proof {
        reveal_strlit("Enter");
        reveal_strlit("Esc");
        assert(searchable_key(keys@[0]@));
        assert(searchable_key(keys@[1]@));
    }
    let hint = color_shortcut_keys(
        Text::from_str(hint_content.as_str()),
        hint_content.as_str(),
        config.shortcut_key_color,
        keys.as_slice(),
    );
    let mut out: Vec<PrintCommand> = Vec::new();
    emit(&mut out, prompt, 0, footer_y, Some(cols));
    emit(&mut out, hint, 0, footer_y + 1, Some(cols));
    proof {
        assert(keys_view(keys@) =~= seq!["Enter"@, "Esc"@]);
        assert(prints_view(out@) =~= input_footer_prints(
            label@,
            action_verb@,
            input.buffer@,
            config@,
            footer_y,
            cols,
        ));
    }
    out
}

/// A text whose shortcut keys are colored.
pub open spec fn shortcut_text(content: Seq<char>, keys: Seq<Seq<char>>, color: usize) -> TextView {
    TextView { color_ranges: shortcut_ranges(content, keys, color), ..plain_text(content) }
}

/// What the footer prints, by mode, at the bottom two rows.
pub open spec fn footer_prints(
    mode: Mode,
    hint: Option<Seq<char>>,
    buffer: Seq<char>,
    layout_session_name: Seq<char>,
    cfg: ConfigView,
    rows: usize,
    cols: usize,
) -> Seq<PrintView> {
    let footer_y = sat_sub(rows as int, 2) as usize;
    let color = cfg.shortcut_key_color;
    match mode {
        Mode::Normal => {
            let hint_prints = match hint {
                Some(h) => seq![
                    PrintView {
                        text: plain_text("  "@ + h).color_range(cfg.hint_message_color, 0, None),
                        x: 0,
                        y: sat_sub(footer_y as int, 1) as usize,
                        width: Some(cols),
                    },
                ],
                None => Seq::empty(),
            };
            let actions = PrintView {
                text: shortcut_text(
                    NORMAL_ACTIONS@,
                    seq!["Enter"@, "n"@, "r"@, "d"@, "Esc"@],
                    color,
                ),
                x: 0,
                y: footer_y,
                width: Some(cols),
            };
            let nav_prints = if cfg.show_navigation_help {
                seq![
                    PrintView {
                        text: shortcut_text(NORMAL_NAVIGATION@, seq!["j"@, "k"@, "1-9"@], color),
                        x: 0,
                        y: (footer_y + 1) as usize,
                        width: Some(cols),
                    },
                ]
            } else {
                Seq::empty()
            };
            hint_prints.push(actions) + nav_prints
        },
        Mode::NewSession => input_footer_prints(
            NEW_SESSION_LABEL@,
            "create"@,
            buffer,
            cfg,
            footer_y,
            cols,
        ),
        Mode::RenameSession => input_footer_prints(
            RENAME_LABEL@,
            "rename"@,
            buffer,
            cfg,
            footer_y,
            cols,
        ),
        Mode::LayoutSelect => seq![
            PrintView {
                text: plain_text("  Select layout for '"@ + layout_session_name + "'"@).color_range(
                    cfg.prompt_label_color,
                    0,
                    None,
                ),
                x: 0,
                y: footer_y,
                width: Some(cols),
            },
            PrintView {
                text: shortcut_text(
                    LAYOUT_SELECT_HINT@,
                    seq!["Enter"@, "Esc"@, "j"@, "k"@],
                    color,
                ),
                x: 0,
                y: (footer_y + 1) as usize,
                width: Some(cols),
            },
        ],
    }
}

/// The view of a hint message.
pub open spec fn hint_view(hint: Option<&str>) -> Option<Seq<char>> {
    match hint {
        Some(h) => Some(h@),
        None => None,
    }
}

/// Renders the footer area with mode-specific content: action shortcuts,
/// input prompts, or layout selection hints.
pub fn render_footer(
    mode: &Mode,
    normal: &NormalHandler,
    input: &InputHandler,
    layout_handler: &LayoutSelectHandler,
    config: &PluginConfig,
    rows: usize,
    cols: usize,
) -> (out: Vec<PrintCommand>)
    ensures
        prints_view(out@) == footer_prints(
            *mode,
            hint_view(normal.hint_message),
            input.buffer@,
            layout_handler.session_name@,
            config@,
            rows,
            cols,
        ),
{
    let footer_y = rows.saturating_sub(2);
    let color = config.shortcut_key_color;
    let mut out: Vec<PrintCommand> = Vec::new();
    match mode {
        Mode::Normal => {
            match normal.hint_message {
                Some(hint) => {
                    let mut content = string_of("  ");
                    push_str(&mut content, hint);
                    let hint_text = Text::new(content).color_range(
                        config.hint_message_color,
                        0,
                        None,
                    );
                    emit(&mut out, hint_text, 0, footer_y.saturating_sub(1), Some(cols));
                },
                None => {},
            }
            let keys: [&str; 5] = ["Enter", "n", "r", "d", "Esc"];
            proof {
                reveal_strlit("Enter");
                reveal_strlit("n");
                reveal_strlit("r");
                reveal_strlit("d");
                reveal_strlit("Esc");
                assert(searchable_key(keys@[0]@));
                assert(searchable_key(keys@[1]@));
                assert(searchable_key(keys@[2]@));
                assert(searchable_key(keys@[3]@));
                assert(searchable_key(keys@[4]@));
                assert(keys_view(keys@) =~= seq!["Enter"@, "n"@, "r"@, "d"@, "Esc"@]);
            }
            let actions = color_shortcut_keys(
                Text::from_str(NORMAL_ACTIONS),
                NORMAL_ACTIONS,
                color,
                keys.as_slice(),
            );
            emit(&mut out, actions, 0, footer_y, Some(cols));
            if config.show_navigation_help {
                let nav_keys: [&str; 3] = ["j", "k", "1-9"];
                proof {
                    reveal_strlit("j");
                    reveal_strlit("k");
                    reveal_strlit("1-9");
                    assert(searchable_key(nav_keys@[0]@));
                    assert(searchable_key(nav_keys@[1]@));
                    assert(searchable_key(nav_keys@[2]@));
                    assert(keys_view(nav_keys@) =~= seq!["j"@, "k"@, "1-9"@]);
                }
                let nav = color_shortcut_keys(
                    Text::from_str(NORMAL_NAVIGATION),
                    NORMAL_NAVIGATION,
                    color,
                    nav_keys.as_slice(),
                );
                emit(&mut out, nav, 0, footer_y + 1, Some(cols));
            }
            assert(prints_view(out@) =~= footer_prints(
                *mode,
                hint_view(normal.hint_message),
                input.buffer@,
                layout_handler.session_name@,
                config@,
                rows,
                cols,
            ));
        },
        Mode::NewSession => {
            out = render_input_footer(NEW_SESSION_LABEL, "create", input, config, footer_y, cols);
        },
        Mode::RenameSession => {
            out = render_input_footer(RENAME_LABEL, "rename", input, config, footer_y, cols);
        },
        Mode::LayoutSelect => {
            let mut content = string_of("  Select layout for '");
            push_str(&mut content, layout_handler.session_name.as_str());
            push_str(&mut content, "'");
            let prompt = Text::new(content).color_range(config.prompt_label_color, 0, None);
            let keys: [&str; 4] = ["Enter", "Esc", "j", "k"];
            proof {
                reveal_strlit("Enter");
                reveal_strlit("Esc");
                reveal_strlit("j");
                reveal_strlit("k");
                assert(searchable_key(keys@[0]@));
                assert(searchable_key(keys@[1]@));
                assert(searchable_key(keys@[2]@));
                assert(searchable_key(keys@[3]@));
                assert(keys_view(keys@) =~= seq!["Enter"@, "Esc"@, "j"@, "k"@]);
            }
            let hint = color_shortcut_keys(
                Text::from_str(LAYOUT_SELECT_HINT),
                LAYOUT_SELECT_HINT,
                color,
                keys.as_slice(),
            );
            emit(&mut out, prompt, 0, footer_y, Some(cols));
            emit(&mut out, hint, 0, footer_y + 1, Some(cols));
            assert(prints_view(out@) =~= footer_prints(
                *mode,
                hint_view(normal.hint_message),
                input.buffer@,
                layout_handler.session_name@,
                config@,
                rows,
                cols,
            ));
        },
    }
    out
}

/// The footer says what the mode is doing, on the two bottom rows: the
/// new-session prompt asks for the new session's name and offers Enter to
/// create; the rename prompt asks for the new name and offers Enter to
/// rename; each shows what has been typed followed by a cursor. The layout
/// picker names the session being created; the session list shows the
/// action shortcuts, with the hint above them and the navigation help below
/// when so configured.
pub proof fn law_footer_matches_mode(
    hint: Option<Seq<char>>,
    buffer: Seq<char>,
    name: Seq<char>,
    cfg: ConfigView,
    rows: usize,
    cols: usize,
)
    requires
        rows < usize::MAX,
    ensures
        ({
            let y = if rows >= 2 {
                rows - 2
            } else {
                0
            };
            let new_session = footer_prints(Mode::NewSession, hint, buffer, name, cfg, rows, cols);
            let rename = footer_prints(Mode::RenameSession, hint, buffer, name, cfg, rows, cols);
            let picker = footer_prints(Mode::LayoutSelect, hint, buffer, name, cfg, rows, cols);
            let normal = footer_prints(Mode::Normal, hint, buffer, name, cfg, rows, cols);
            let shown_hint: int = if hint is Some {
                1
            } else {
                0
            };
            &&& new_session.len() == 2
            &&& new_session[0].text.content == "  New session name: "@ + buffer + "|"@
            &&& new_session[0].text.color_ranges == seq![
                ColorRange {
                    color: cfg.prompt_label_color,
                    start: 0,
                    end: Some(utf8("  New session name: "@).len() as usize),
                },
            ]
            &&& new_session[1].text.content == "  Enter: create  Esc: cancel"@
            &&& new_session[0].y == y && new_session[1].y == y + 1
            &&& rename.len() == 2
            &&& rename[0].text.content == "  Rename session: "@ + buffer + "|"@
            &&& rename[0].text.color_ranges == seq![
                ColorRange {
                    color: cfg.prompt_label_color,
                    start: 0,
                    end: Some(utf8("  Rename session: "@).len() as usize),
                },
            ]
            &&& rename[1].text.content == "  Enter: rename  Esc: cancel"@
            &&& rename[0].y == y && rename[1].y == y + 1
            &&& picker.len() == 2
            &&& picker[0].text.content == "  Select layout for '"@ + name + "'"@
            &&& picker[1].text.content == "  Enter: create  Esc: cancel  j/k: navigate"@
            &&& picker[0].y == y && picker[1].y == y + 1
            &&& normal.len() == shown_hint + 1 + if cfg.show_navigation_help {
                1int
            } else {
                0
            }
            &&& normal[shown_hint].text.content
                == "  Enter: switch  n: new  r: rename  d: delete  Esc: close"@
            &&& normal[shown_hint].y == y
            &&& hint matches Some(h) ==> normal[0].text.content == "  "@ + h && normal[0].y == if y
                >= 1 {
                y - 1
            } else {
                0
            }
            &&& cfg.show_navigation_help ==> normal[shown_hint + 1].text.content
                == "  j/k: navigate  1-9: quick switch"@ && normal[shown_hint + 1].y == y + 1
        }),
{
    reveal_strlit("  New session name: ");
    reveal_strlit("  Rename session: ");
    reveal_strlit("  Enter: ");
    reveal_strlit("create");
    reveal_strlit("rename");
    reveal_strlit("  Esc: cancel");
    reveal_strlit("  Enter: create  Esc: cancel");
    reveal_strlit("  Enter: rename  Esc: cancel");
    reveal_strlit("  Enter: create  Esc: cancel  j/k: navigate");
    reveal_strlit("  Enter: switch  n: new  r: rename  d: delete  Esc: close");
    reveal_strlit("  j/k: navigate  1-9: quick switch");
    assert("  Enter: "@ + "create"@ + "  Esc: cancel"@ =~= "  Enter: create  Esc: cancel"@);
    assert("  Enter: "@ + "rename"@ + "  Esc: cancel"@ =~= "  Enter: rename  Esc: cancel"@);
    let normal = footer_prints(Mode::Normal, hint, buffer, name, cfg, rows, cols);
    if hint is Some {
        assert(normal[0].text.content == "  "@ + hint->0);
    }
}

} // verus!
