//! Plugin configuration types and parsing.
//!
//! The host hands the plugin its configuration as a map from option names
//! to string values. The options are looked up by name; a missing or
//! malformed value falls back to the option's default.

use std::collections::BTreeMap;

use vstd::prelude::*;

use crate::text::{
    eq_ignore_ascii_case, eq_ignore_ascii_case_spec, parse_usize, parse_usize_spec, str_eq,
    string_of, trim, trim_spec,
};

verus! {

/// User-configurable settings parsed from the host's plugin configuration map.
pub struct PluginConfig {
    /// Color index for the header title text (0–3).
    pub header_text_color: usize,
    /// Color index for keyboard shortcut labels in the footer (0–3).
    pub shortcut_key_color: usize,
    /// Color index for list item index numbers (0–3).
    pub index_number_color: usize,
    /// Color index for the "(active)" marker on the current session (0–3).
    pub active_marker_color: usize,
    /// Color index for the "(dead)" marker on resurrectable sessions (0–3).
    pub dead_marker_color: usize,
    /// Color index for the "(built-in)" marker on built-in layouts (0–3).
    pub builtin_marker_color: usize,
    /// Color index for transient hint messages (0–3).
    pub hint_message_color: usize,
    /// Color index for input prompt labels (0–3).
    pub prompt_label_color: usize,
    /// Title displayed in the centered header.
    pub header_title: String,
    /// Whether to show 1-based index numbers beside list items.
    pub show_index_numbers: bool,
    /// Whether to show the j/k navigation help line in the footer.
    pub show_navigation_help: bool,
    /// Prefix string rendered beside the selected list item.
    pub selection_prefix: String,
    /// Whether to highlight the selected list item row.
    pub show_selection_highlight: bool,
    /// Left padding (in columns) for list content.
    pub list_padding: usize,
}

/// The abstract value of a [`PluginConfig`].
pub struct ConfigView {
    pub header_text_color: usize,
    pub shortcut_key_color: usize,
    pub index_number_color: usize,
    pub active_marker_color: usize,
    pub dead_marker_color: usize,
    pub builtin_marker_color: usize,
    pub hint_message_color: usize,
    pub prompt_label_color: usize,
    pub header_title: Seq<char>,
    pub show_index_numbers: bool,
    pub show_navigation_help: bool,
    pub selection_prefix: Seq<char>,
    pub show_selection_highlight: bool,
    pub list_padding: usize,
}

impl View for PluginConfig {
    type V = ConfigView;

    open spec fn view(&self) -> ConfigView {
        ConfigView {
            header_text_color: self.header_text_color,
            shortcut_key_color: self.shortcut_key_color,
            index_number_color: self.index_number_color,
            active_marker_color: self.active_marker_color,
            dead_marker_color: self.dead_marker_color,
            builtin_marker_color: self.builtin_marker_color,
            hint_message_color: self.hint_message_color,
            prompt_label_color: self.prompt_label_color,
            header_title: self.header_title@,
            show_index_numbers: self.show_index_numbers,
            show_navigation_help: self.show_navigation_help,
            selection_prefix: self.selection_prefix@,
            show_selection_highlight: self.show_selection_highlight,
            list_padding: self.list_padding,
        }
    }
}

/// The default title of the header.
pub const DEFAULT_HEADER_TITLE: &'static str = "Session Manager";

/// The default configuration.
pub open spec fn default_config() -> ConfigView {
    ConfigView {
        header_text_color: 0,
        shortcut_key_color: 0,
        index_number_color: 0,
        active_marker_color: 1,
        dead_marker_color: 1,
        builtin_marker_color: 1,
        hint_message_color: 2,
        prompt_label_color: 0,
        header_title: DEFAULT_HEADER_TITLE@,
        show_index_numbers: true,
        show_navigation_help: true,
        selection_prefix: Seq::empty(),
        show_selection_highlight: true,
        list_padding: 2,
    }
}

/// Provides sensible defaults for all configuration fields.
impl Default for PluginConfig {
    /// Returns the default plugin configuration.
    fn default() -> (res: Self)
        ensures
            res@ == default_config(),
    {
        Self {
            header_text_color: 0,
            shortcut_key_color: 0,
            index_number_color: 0,
            active_marker_color: 1,
            dead_marker_color: 1,
            builtin_marker_color: 1,
            hint_message_color: 2,
            prompt_label_color: 0,
            header_title: string_of(DEFAULT_HEADER_TITLE),
            show_index_numbers: true,
            show_navigation_help: true,
            selection_prefix: String::new(),
            show_selection_highlight: true,
            list_padding: 2,
        }
    }
}

// ---------------------------------------------------------------------------
// Looking options up
// ---------------------------------------------------------------------------
/// The value of the first entry called `key`, if any.
pub open spec fn lookup(entries: Seq<(String, String)>, key: Seq<char>) -> Option<Seq<char>>
    decreases entries.len(),
{
    if entries.len() == 0 {
        None
    } else if entries[0].0@ == key {
        Some(entries[0].1@)
    } else {
        lookup(entries.drop_first(), key)
    }
}

/// The position of the first entry called `key`.
fn find_entry(entries: &[(String, String)], key: &str) -> (res: Option<usize>)
    ensures
        match res {
            Some(i) => i < entries@.len() && lookup(entries@, key@) == Some(entries@[i as int].1@),
            None => lookup(entries@, key@) is None,
        },
{
    let n = entries.len();
    let mut i: usize = 0;
    assert(entries@.skip(0) =~= entries@);
    while i < n
        invariant
            n == entries@.len(),
            i <= n,
            lookup(entries@, key@) == lookup(entries@.skip(i as int), key@),
        decreases n - i,
    {
        assert(entries@.skip(i as int).drop_first() =~= entries@.skip(i + 1));
        assert(entries@.skip(i as int)[0] == entries@[i as int]);
        if str_eq(entries[i].0.as_str(), key) {
            return Some(i);
        }
        i = i + 1;
    }
    None
}

/// The color index that an option value gives: a number, clamped to 3.
pub open spec fn color_value(value: Option<Seq<char>>, default: usize) -> usize {
    match value {
        Some(v) => match parse_usize_spec(v) {
            Some(n) => if n < 3 {
                n
            } else {
                3
            },
            None => default,
        },
        None => default,
    }
}

/// The flag that an option value gives: "true" or "false", in any case.
pub open spec fn bool_value(value: Option<Seq<char>>, default: bool) -> bool {
    match value {
        Some(v) => if eq_ignore_ascii_case_spec(v, "true"@) {
            true
        } else if eq_ignore_ascii_case_spec(v, "false"@) {
            false
        } else {
            default
        },
        None => default,
    }
}

/// The number that an option value gives.
pub open spec fn number_value(value: Option<Seq<char>>, default: usize) -> usize {
    match value {
        Some(v) => match parse_usize_spec(v) {
            Some(n) => n,
            None => default,
        },
        None => default,
    }
}

/// The text that an option value gives.
pub open spec fn text_value(value: Option<Seq<char>>, default: Seq<char>) -> Seq<char> {
    match value {
        Some(v) => v,
        None => default,
    }
}

/// The color index of an option among the entries, clamped to the 0–3 range.
fn color_option(map: &[(String, String)], key: &str, default: usize) -> (res: usize)
    ensures
        res == color_value(lookup(map@, key@), default),
{
    match find_entry(map, key) {
        Some(i) => match parse_usize(map[i].1.as_str()) {
            Some(v) => if v < 3 {
                v
            } else {
                3
            },
            None => default,
        },
        None => default,
    }
}

/// The flag of an option among the entries (case-insensitive "true"/"false").
fn bool_option(map: &[(String, String)], key: &str, default: bool) -> (res: bool)
    ensures
        res == bool_value(lookup(map@, key@), default),
{
    match find_entry(map, key) {
        Some(i) => {
            let v = map[i].1.as_str();
            if eq_ignore_ascii_case(v, "true") {
                true
            } else if eq_ignore_ascii_case(v, "false") {
                false
            } else {
                default
            }
        },
        None => default,
    }
}

/// The number of an option among the entries.
fn number_option(map: &[(String, String)], key: &str, default: usize) -> (res: usize)
    ensures
        res == number_value(lookup(map@, key@), default),
{
    match find_entry(map, key) {
        Some(i) => match parse_usize(map[i].1.as_str()) {
            Some(v) => v,
            None => default,
        },
        None => default,
    }
}

/// The configuration that a lookup of option values by name gives.
pub open spec fn config_with(value_of: spec_fn(Seq<char>) -> Option<Seq<char>>) -> ConfigView {
    let d = default_config();
    ConfigView {
        header_text_color: color_value(value_of("header_text_color"@), d.header_text_color),
        shortcut_key_color: color_value(
            value_of("shortcut_key_color"@),
            d.shortcut_key_color,
        ),
        index_number_color: color_value(
            value_of("index_number_color"@),
            d.index_number_color,
        ),
        active_marker_color: color_value(
            value_of("active_marker_color"@),
            d.active_marker_color,
        ),
        dead_marker_color: color_value(value_of("dead_marker_color"@), d.dead_marker_color),
        builtin_marker_color: color_value(
            value_of("builtin_marker_color"@),
            d.builtin_marker_color,
        ),
        hint_message_color: color_value(
            value_of("hint_message_color"@),
            d.hint_message_color,
        ),
        prompt_label_color: color_value(
            value_of("prompt_label_color"@),
            d.prompt_label_color,
        ),
        header_title: text_value(value_of("header_title"@), d.header_title),
        show_index_numbers: bool_value(
            value_of("show_index_numbers"@),
            d.show_index_numbers,
        ),
        show_navigation_help: bool_value(
            value_of("show_navigation_help"@),
            d.show_navigation_help,
        ),
        selection_prefix: match value_of("selection_prefix"@) {
            Some(v) => trim_spec(v),
            None => d.selection_prefix,
        },
        show_selection_highlight: bool_value(
            value_of("show_selection_highlight"@),
            d.show_selection_highlight,
        ),
        list_padding: number_value(value_of("list_padding"@), d.list_padding),
    }
}

/// The configuration that a set of option entries gives.
pub open spec fn config_from(entries: Seq<(String, String)>) -> ConfigView {
    config_with(|key: Seq<char>| lookup(entries, key))
}

/// The value of the option called `key` in a configuration map.
pub open spec fn map_lookup(m: Map<String, String>, key: Seq<char>) -> Option<Seq<char>> {
    if exists|k: String| m.contains_key(k) && k@ == key {
        Some(m[choose|k: String| m.contains_key(k) && k@ == key]@)
    } else {
        None
    }
}

/// The configuration that a configuration map gives.
pub open spec fn config_from_map(m: Map<String, String>) -> ConfigView {
    config_with(|key: Seq<char>| map_lookup(m, key))
}

/// std `BTreeMap::pop_first`: removes one entry of the map and returns it,
/// or returns `None` and leaves the map alone when it is empty. The entry
/// removed is the one with the least key; which one that is is not stated
/// here. Keys of a `BTreeMap<String, _>` are unique by their text, so no
/// key left in the map has the text of the one removed.
#[verifier::external_body]
fn pop_first_entry(map: &mut BTreeMap<String, String>) -> (res: Option<(String, String)>)
    ensures
        match res {
            Some((k, v)) => {
                &&& old(map)@.contains_key(k)
                &&& old(map)@[k] == v
                &&& final(map)@ == old(map)@.remove(k)
                &&& forall|k2: String| #[trigger] final(map)@.contains_key(k2) ==> k2@ != k@
            },
            None => old(map)@ == Map::<String, String>::empty() && final(map)@ == old(map)@,
        },
{
    map.pop_first()
}

/// The entries of a configuration map: each key of the map exactly once,
/// with its value.
fn map_entries(map: BTreeMap<String, String>) -> (entries: Vec<(String, String)>)
    ensures
        forall|i: int|
            0 <= i < entries@.len() ==> map@.contains_key(#[trigger] entries@[i].0) && map@[entries@[i].0]
                == entries@[i].1,
        forall|k: String|
            #[trigger] map@.contains_key(k) ==> exists|i: int|
                0 <= i < entries@.len() && entries@[i].0 == k,
        forall|i: int, j: int|
            0 <= i < j < entries@.len() ==> (#[trigger] entries@[i]).0@ != (#[trigger] entries@[j]).0@,
{
    broadcast use vstd::std_specs::btree::axiom_btree_map_view_finite_dom;

    let ghost m0 = map@;
    let mut rest = map;
    let mut entries: Vec<(String, String)> = Vec::new();
    loop
        invariant
            forall|i: int|
                0 <= i < entries@.len() ==> m0.contains_key(#[trigger] entries@[i].0)
                    && m0[entries@[i].0] == entries@[i].1,
            forall|i: int, k: String|
                0 <= i < entries@.len() && #[trigger] rest@.contains_key(k) ==> k@
                    != (#[trigger] entries@[i]).0@,
            forall|k: String|
                #[trigger] rest@.contains_key(k) ==> m0.contains_key(k) && m0[k] == rest@[k],
            forall|k: String|
                #[trigger] m0.contains_key(k) ==> rest@.contains_key(k) || exists|i: int|
                    0 <= i < entries@.len() && entries@[i].0 == k,
            forall|i: int, j: int|
                0 <= i < j < entries@.len() ==> (#[trigger] entries@[i]).0@ != (#[trigger] entries@[j]).0@,
        ensures
            rest@ == Map::<String, String>::empty(),
        decreases rest@.dom().len(),
    {
        let ghost before = rest@;
        match pop_first_entry(&mut rest) {
            Some((k, v)) => {
                proof {
                    assert(before.dom().finite());
                    assert(rest@.dom() =~= before.dom().remove(k));
                }
                let ghost prev = entries@;
                entries.push((k, v));
                proof {
                    assert forall|q: String| #[trigger] m0.contains_key(q) implies rest@.contains_key(q)
                        || exists|i: int| 0 <= i < entries@.len() && entries@[i].0 == q by {
                        if !rest@.contains_key(q) {
                            if q == k {
                                assert(entries@[prev.len() as int].0 == q);
                            } else if before.contains_key(q) {
                                assert(rest@.contains_key(q));
                            } else {
                                let i = choose|i: int| 0 <= i < prev.len() && prev[i].0 == q;
                                assert(entries@[i].0 == q);
                            }
                        }
                    }
                    assert forall|i: int, j: int|
                        0 <= i < j < entries@.len() implies (#[trigger] entries@[i]).0@
                        != (#[trigger] entries@[j]).0@ by {
                        if j == prev.len() {
                            assert(before.contains_key(k));
                            assert(entries@[i] == prev[i]);
                        } else {
                            assert(entries@[i] == prev[i]);
                            assert(entries@[j] == prev[j]);
                        }
                    }
                }
            },
            None => {
                break;
            },
        }
    }
    proof {
        assert forall|k: String| #[trigger] m0.contains_key(k) implies exists|i: int|
            0 <= i < entries@.len() && entries@[i].0 == k by {
            assert(!rest@.contains_key(k));
        }
    }
    entries
}

proof fn lemma_lookup_first(entries: Seq<(String, String)>, key: Seq<char>, i: int)
    requires
        0 <= i < entries.len(),
        entries[i].0@ == key,
        forall|j: int| 0 <= j < i ==> (#[trigger] entries[j]).0@ != key,
    ensures
        lookup(entries, key) == Some(entries[i].1@),
    decreases i,
{
    if i > 0 {
        let t = entries.drop_first();
        assert(entries[0].0@ != key);
        assert forall|j: int| 0 <= j < i - 1 implies (#[trigger] t[j]).0@ != key by {
            assert(t[j] == entries[j + 1]);
        }
        lemma_lookup_first(t, key, i - 1);
    }
}

proof fn lemma_lookup_none(entries: Seq<(String, String)>, key: Seq<char>)
    requires
        forall|j: int| 0 <= j < entries.len() ==> (#[trigger] entries[j]).0@ != key,
    ensures
        lookup(entries, key) is None,
    decreases entries.len(),
{
    if entries.len() > 0 {
        let t = entries.drop_first();
        assert(entries[0].0@ != key);
        assert forall|j: int| 0 <= j < t.len() implies (#[trigger] t[j]).0@ != key by {
            assert(t[j] == entries[j + 1]);
        }
        lemma_lookup_none(t, key);
    }
}

proof fn lemma_lookup_map(m: Map<String, String>, entries: Seq<(String, String)>, key: Seq<char>)
    requires
        forall|i: int|
            0 <= i < entries.len() ==> m.contains_key(#[trigger] entries[i].0) && m[entries[i].0]
                == entries[i].1,
        forall|k: String|
            #[trigger] m.contains_key(k) ==> exists|i: int| 0 <= i < entries.len() && entries[i].0 == k,
        forall|i: int, j: int|
            0 <= i < j < entries.len() ==> (#[trigger] entries[i]).0@ != (#[trigger] entries[j]).0@,
    ensures
        lookup(entries, key) == map_lookup(m, key),
{
    if exists|k: String| m.contains_key(k) && k@ == key {
        let k = choose|k: String| m.contains_key(k) && k@ == key;
        let i = choose|i: int| 0 <= i < entries.len() && entries[i].0 == k;
        assert forall|j: int| 0 <= j < i implies (#[trigger] entries[j]).0@ != key by {
            assert(entries[j].0@ != entries[i].0@);
        }
        lemma_lookup_first(entries, key, i);
    } else {
        assert forall|j: int| 0 <= j < entries.len() implies (#[trigger] entries[j]).0@ != key by {
            assert(m.contains_key(entries[j].0));
        }
        lemma_lookup_none(entries, key);
    }
}

/// The entries of a configuration map, which look options up as the map
/// does.
fn entries_of(map: &BTreeMap<String, String>) -> (entries: Vec<(String, String)>)
    ensures
        forall|key: Seq<char>| #[trigger] lookup(entries@, key) == map_lookup(map@, key),
{
    let entries = map_entries(map.clone());
    proof {
        assert forall|key: Seq<char>| #[trigger] lookup(entries@, key) == map_lookup(map@, key) by {
            lemma_lookup_map(map@, entries@, key);
        }
    }
    entries
}

/// Parses a color index from the config map, clamping to the 0–3 range.
pub fn parse_color(map: &BTreeMap<String, String>, key: &str, default: usize) -> (res: usize)
    ensures
        res == color_value(map_lookup(map@, key@), default),
{
    let entries = entries_of(map);
    color_option(entries.as_slice(), key, default)
}

/// Parses a boolean value from the config map (case-insensitive "true"/"false").
pub fn parse_bool(map: &BTreeMap<String, String>, key: &str, default: bool) -> (res: bool)
    ensures
        res == bool_value(map_lookup(map@, key@), default),
{
    let entries = entries_of(map);
    bool_option(entries.as_slice(), key, default)
}

impl PluginConfig {
    /// Parses all known options from the entries, falling back to defaults
    /// for missing or invalid values.
    fn from_entries(map: &[(String, String)]) -> (res: Self)
        ensures
            res@ == config_from(map@),
    {
        let defaults = Self::default();
        let header_title = match find_entry(map, "header_title") {
            Some(i) => map[i].1.clone(),
            None => defaults.header_title,
        };
        let selection_prefix = match find_entry(map, "selection_prefix") {
            Some(i) => trim(map[i].1.as_str()),
            None => defaults.selection_prefix,
        };
        Self {
            header_text_color: color_option(map, "header_text_color", defaults.header_text_color),
            shortcut_key_color: color_option(map, "shortcut_key_color", defaults.shortcut_key_color),
            index_number_color: color_option(map, "index_number_color", defaults.index_number_color),
            active_marker_color: color_option(
                map,
                "active_marker_color",
                defaults.active_marker_color,
            ),
            dead_marker_color: color_option(map, "dead_marker_color", defaults.dead_marker_color),
            builtin_marker_color: color_option(
                map,
                "builtin_marker_color",
                defaults.builtin_marker_color,
            ),
            hint_message_color: color_option(map, "hint_message_color", defaults.hint_message_color),
            prompt_label_color: color_option(map, "prompt_label_color", defaults.prompt_label_color),
            header_title,
            show_index_numbers: bool_option(map, "show_index_numbers", defaults.show_index_numbers),
            show_navigation_help: bool_option(
                map,
                "show_navigation_help",
                defaults.show_navigation_help,
            ),
            selection_prefix,
            show_selection_highlight: bool_option(
                map,
                "show_selection_highlight",
                defaults.show_selection_highlight,
            ),
            list_padding: number_option(map, "list_padding", defaults.list_padding),
        }
    }
}

/// Every color option of a parsed configuration lies in the theme's four
/// accent colors (0–3): values above 3 are clamped to 3, and missing or
/// malformed values give the defaults, which lie there too.
pub proof fn law_colors_in_palette(m: Map<String, String>)
    ensures
        ({
            let c = config_from_map(m);
            &&& c.header_text_color <= 3
            &&& c.shortcut_key_color <= 3
            &&& c.index_number_color <= 3
            &&& c.active_marker_color <= 3
            &&& c.dead_marker_color <= 3
            &&& c.builtin_marker_color <= 3
            &&& c.hint_message_color <= 3
            &&& c.prompt_label_color <= 3
        }),
{
}

/// Every color option that holds a number takes that number, clamped to 3;
/// one that holds anything else takes its default.
pub proof fn law_color_options_read(m: Map<String, String>)
    ensures
        ({
            let c = config_from_map(m);
            &&& map_lookup(m, "header_text_color"@) matches Some(v) ==> (parse_usize_spec(v) matches Some(n) ==> c.header_text_color == if n < 3 {
                n
            } else {
                3
            })
            &&& map_lookup(m, "header_text_color"@) matches Some(v) ==> (parse_usize_spec(v) is None ==> c.header_text_color == 0)
            &&& map_lookup(m, "shortcut_key_color"@) matches Some(v) ==> (parse_usize_spec(v) matches Some(n) ==> c.shortcut_key_color == if n < 3 {
                n
            } else {
                3
            })
            &&& map_lookup(m, "shortcut_key_color"@) matches Some(v) ==> (parse_usize_spec(v) is None ==> c.shortcut_key_color == 0)
            &&& map_lookup(m, "index_number_color"@) matches Some(v) ==> (parse_usize_spec(v) matches Some(n) ==> c.index_number_color == if n < 3 {
                n
            } else {
                3
            })
            &&& map_lookup(m, "index_number_color"@) matches Some(v) ==> (parse_usize_spec(v) is None ==> c.index_number_color == 0)
            &&& map_lookup(m, "active_marker_color"@) matches Some(v) ==> (parse_usize_spec(v) matches Some(n) ==> c.active_marker_color == if n < 3 {
                n
            } else {
                3
            })
            &&& map_lookup(m, "active_marker_color"@) matches Some(v) ==> (parse_usize_spec(v) is None ==> c.active_marker_color == 1)
            &&& map_lookup(m, "dead_marker_color"@) matches Some(v) ==> (parse_usize_spec(v) matches Some(n) ==> c.dead_marker_color == if n < 3 {
                n
            } else {
                3
            })
            &&& map_lookup(m, "dead_marker_color"@) matches Some(v) ==> (parse_usize_spec(v) is None ==> c.dead_marker_color == 1)
            &&& map_lookup(m, "builtin_marker_color"@) matches Some(v) ==> (parse_usize_spec(v) matches Some(n) ==> c.builtin_marker_color == if n < 3 {
                n
            } else {
                3
            })
            &&& map_lookup(m, "builtin_marker_color"@) matches Some(v) ==> (parse_usize_spec(v) is None ==> c.builtin_marker_color == 1)
            &&& map_lookup(m, "hint_message_color"@) matches Some(v) ==> (parse_usize_spec(v) matches Some(n) ==> c.hint_message_color == if n < 3 {
                n
            } else {
                3
            })
            &&& map_lookup(m, "hint_message_color"@) matches Some(v) ==> (parse_usize_spec(v) is None ==> c.hint_message_color == 2)
            &&& map_lookup(m, "prompt_label_color"@) matches Some(v) ==> (parse_usize_spec(v) matches Some(n) ==> c.prompt_label_color == if n < 3 {
                n
            } else {
                3
            })
            &&& map_lookup(m, "prompt_label_color"@) matches Some(v) ==> (parse_usize_spec(v) is None ==> c.prompt_label_color == 0)
        }),
{
}

/// Every flag option that holds "true" or "false", in any ASCII case, takes
/// that value: the option is read, not ignored.
pub proof fn law_flag_options_read(m: Map<String, String>)
    ensures
        ({
            let c = config_from_map(m);
            &&& map_lookup(m, "show_index_numbers"@) matches Some(v) ==> (eq_ignore_ascii_case_spec(
                v,
                "true"@,
            ) ==> c.show_index_numbers)
            &&& map_lookup(m, "show_index_numbers"@) matches Some(v) ==> (eq_ignore_ascii_case_spec(
                v,
                "false"@,
            ) ==> !c.show_index_numbers)
            &&& map_lookup(m, "show_index_numbers"@) == Some("true"@) ==> c.show_index_numbers
            &&& map_lookup(m, "show_index_numbers"@) == Some("false"@) ==> !c.show_index_numbers
            &&& map_lookup(m, "show_navigation_help"@) matches Some(v) ==> (eq_ignore_ascii_case_spec(
                v,
                "true"@,
            ) ==> c.show_navigation_help)
            &&& map_lookup(m, "show_navigation_help"@) matches Some(v) ==> (eq_ignore_ascii_case_spec(
                v,
                "false"@,
            ) ==> !c.show_navigation_help)
            &&& map_lookup(m, "show_navigation_help"@) == Some("true"@) ==> c.show_navigation_help
            &&& map_lookup(m, "show_navigation_help"@) == Some("false"@) ==> !c.show_navigation_help
            &&& map_lookup(m, "show_selection_highlight"@) matches Some(v) ==> (eq_ignore_ascii_case_spec(
                v,
                "true"@,
            ) ==> c.show_selection_highlight)
            &&& map_lookup(m, "show_selection_highlight"@) matches Some(v) ==> (eq_ignore_ascii_case_spec(
                v,
                "false"@,
            ) ==> !c.show_selection_highlight)
            &&& map_lookup(m, "show_selection_highlight"@) == Some("true"@) ==> c.show_selection_highlight
            &&& map_lookup(m, "show_selection_highlight"@) == Some("false"@) ==> !c.show_selection_highlight
        }),
{
    reveal_strlit("true");
    reveal_strlit("false");
    assert(!eq_ignore_ascii_case_spec("true"@, "false"@));
    assert(eq_ignore_ascii_case_spec("true"@, "true"@));
    assert(eq_ignore_ascii_case_spec("false"@, "false"@));
}

/// The title is taken as given, the selection prefix with surrounding
/// whitespace removed, and the padding as the number given (a padding that
/// is not a number keeps the default of 2).
pub proof fn law_text_options_read(m: Map<String, String>)
    ensures
        ({
            let c = config_from_map(m);
            &&& map_lookup(m, "header_title"@) matches Some(v) ==> c.header_title == v
            &&& map_lookup(m, "selection_prefix"@) matches Some(v) ==> c.selection_prefix
                == trim_spec(v)
            &&& map_lookup(m, "list_padding"@) matches Some(v) ==> (parse_usize_spec(v) matches Some(n) ==> c.list_padding == n)
            &&& map_lookup(m, "list_padding"@) matches Some(v) ==> (parse_usize_spec(v) is None ==> c.list_padding == 2)
        }),
{
}

/// A color value above 3 is clamped to 3.
pub proof fn law_color_clamped(value: Seq<char>, default: usize)
    requires
        parse_usize_spec(value) matches Some(n) && n >= 3,
    ensures
        color_value(Some(value), default) == 3,
{
}

/// Every option is optional: an option missing from the map takes its
/// default value.
pub proof fn law_missing_option_gives_default(m: Map<String, String>)
    ensures
        ({
            let c = config_from_map(m);
            let d = default_config();
            &&& map_lookup(m, "header_text_color"@) is None ==> c.header_text_color
                == d.header_text_color
            &&& map_lookup(m, "shortcut_key_color"@) is None ==> c.shortcut_key_color
                == d.shortcut_key_color
            &&& map_lookup(m, "index_number_color"@) is None ==> c.index_number_color
                == d.index_number_color
            &&& map_lookup(m, "active_marker_color"@) is None ==> c.active_marker_color
                == d.active_marker_color
            &&& map_lookup(m, "dead_marker_color"@) is None ==> c.dead_marker_color
                == d.dead_marker_color
            &&& map_lookup(m, "builtin_marker_color"@) is None ==> c.builtin_marker_color
                == d.builtin_marker_color
            &&& map_lookup(m, "hint_message_color"@) is None ==> c.hint_message_color
                == d.hint_message_color
            &&& map_lookup(m, "prompt_label_color"@) is None ==> c.prompt_label_color
                == d.prompt_label_color
            &&& map_lookup(m, "header_title"@) is None ==> c.header_title == d.header_title
            &&& map_lookup(m, "show_index_numbers"@) is None ==> c.show_index_numbers
                == d.show_index_numbers
            &&& map_lookup(m, "show_navigation_help"@) is None ==> c.show_navigation_help
                == d.show_navigation_help
            &&& map_lookup(m, "selection_prefix"@) is None ==> c.selection_prefix
                == d.selection_prefix
            &&& map_lookup(m, "show_selection_highlight"@) is None ==> c.show_selection_highlight
                == d.show_selection_highlight
            &&& map_lookup(m, "list_padding"@) is None ==> c.list_padding == d.list_padding
        }),
{
}

impl vstd::std_specs::convert::FromSpecImpl<BTreeMap<String, String>> for PluginConfig {
    open spec fn obeys_from_spec() -> bool {
        false
    }

    open spec fn from_spec(v: BTreeMap<String, String>) -> Self {
        vstd::pervasive::arbitrary()
    }
}

/// Constructs a [`PluginConfig`] from the host's plugin configuration map.
impl From<BTreeMap<String, String>> for PluginConfig {
    /// Parses all known keys from the map, falling back to defaults for
    /// missing or invalid values.
    fn from(map: BTreeMap<String, String>) -> (res: Self)
        ensures
            res@ == config_from_map(map@),
    {
        let ghost m = map@;
        let entries = map_entries(map);
        let res = PluginConfig::from_entries(entries.as_slice());
        proof {
            assert forall|key: Seq<char>| lookup(entries@, key) == map_lookup(m, key) by {
                lemma_lookup_map(m, entries@, key);
            }
            assert((|key: Seq<char>| lookup(entries@, key)) =~= (|key: Seq<char>| map_lookup(m, key)));
        }
        res
    }
}

} // verus!
