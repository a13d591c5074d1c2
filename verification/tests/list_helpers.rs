use zellij_switcher::config::PluginConfig;
use zellij_switcher::render::draw::ColorRange;
use zellij_switcher::render::list_helpers::{
    build_line_content, calculate_gutter, calculate_list_height, calculate_scroll_offset,
    render_list, ListItem, ListMarker,
};

#[test]
fn gutter_uses_padding_when_no_prefix() {
    assert_eq!(calculate_gutter("", 4), 4);
}

#[test]
fn gutter_minimum_3_when_prefix_set() {
    assert_eq!(calculate_gutter(">", 1), 3);
}

#[test]
fn gutter_uses_padding_when_larger_than_prefix_width() {
    assert_eq!(calculate_gutter(">", 5), 5);
}

#[test]
fn scroll_offset_zero_when_in_view() {
    assert_eq!(calculate_scroll_offset(0, 10), 0);
    assert_eq!(calculate_scroll_offset(5, 10), 0);
    assert_eq!(calculate_scroll_offset(9, 10), 0);
}

#[test]
fn scroll_offset_scrolls_when_past_view() {
    assert_eq!(calculate_scroll_offset(10, 10), 1);
    assert_eq!(calculate_scroll_offset(15, 10), 6);
}

#[test]
fn list_height_subtracts_chrome() {
    assert_eq!(calculate_list_height(20), 15);
    assert_eq!(calculate_list_height(10), 5);
}

#[test]
fn list_height_minimum_one() {
    assert_eq!(calculate_list_height(3), 1);
    assert_eq!(calculate_list_height(0), 1);
}

#[test]
fn line_content_with_index_numbers() {
    let item = ListItem { name: "my-session", marker: None };
    let content = build_line_content(0, &item, true, 1);
    assert_eq!(content, "1 my-session");
}

#[test]
fn line_content_without_index_numbers() {
    let item = ListItem { name: "my-session", marker: None };
    let content = build_line_content(0, &item, false, 0);
    assert_eq!(content, "my-session");
}

#[test]
fn line_content_with_marker() {
    let item = ListItem { name: "my-session", marker: Some(ListMarker { text: " (active)", color: 1 }) };
    let content = build_line_content(0, &item, false, 0);
    assert_eq!(content, "my-session (active)");
}

#[test]
fn line_content_with_index_and_marker() {
    let item = ListItem { name: "session", marker: Some(ListMarker { text: " (dead)", color: 2 }) };
    let content = build_line_content(2, &item, true, 2);
    assert_eq!(content, " 3 session (dead)");
}

#[test]
fn render_list_with_selection_prefix() {
    let items = vec![
        ListItem { name: "session1", marker: None },
        ListItem { name: "session2", marker: None },
    ];
    let config = PluginConfig { selection_prefix: ">".to_string(), ..Default::default() };
    render_list(&items, 0, "empty", &config, 20, 80);
}

#[test]
fn render_list_with_selection_highlight_and_marker() {
    let items =
        vec![ListItem { name: "session1", marker: Some(ListMarker { text: " (active)", color: 1 }) }];
    let config = PluginConfig::default();
    render_list(&items, 0, "empty", &config, 20, 80);
}

#[test]
fn render_list_empty() {
    let items: Vec<ListItem<'_>> = vec![];
    let config = PluginConfig::default();
    render_list(&items, 0, "No sessions", &config, 20, 80);
}

#[test]
fn render_list_scrolls_when_selected_past_view() {
    let names: Vec<String> = (0..20).map(|i| format!("s{}", i)).collect();
    let items: Vec<ListItem<'_>> =
        names.iter().map(|name| ListItem { name: name.as_str(), marker: None }).collect();
    let config = PluginConfig::default();
    // list_height for rows=10 is 5, selected_index=15 should scroll
    render_list(&items, 15, "empty", &config, 10, 80);
}

#[test]
fn line_content_pads_index_to_width() {
    let item = ListItem { name: "s", marker: None };
    let content = build_line_content(0, &item, true, 2);
    assert_eq!(content, " 1 s");

    let content = build_line_content(9, &item, true, 2);
    assert_eq!(content, "10 s");
}

// The selection prefix goes in the gutter before the selected line, which
// is highlighted; the index column and the marker are colored.
#[test]
fn render_list_draws_selected_line() {
    let items = vec![
        ListItem { name: "one", marker: None },
        ListItem { name: "two", marker: Some(ListMarker { text: " (dead)", color: 3 }) },
    ];
    let config = PluginConfig { selection_prefix: "> ".to_string(), ..Default::default() };
    let out = render_list(&items, 1, "empty", &config, 20, 80);
    assert_eq!(out.len(), 3);
    assert_eq!(out[0].text.content, "1 one");
    assert_eq!((out[0].x, out[0].y, out[0].width), (3, 2, Some(77)));
    assert!(!out[0].text.selected);
    assert_eq!(out[1].text.content, "> ");
    assert_eq!((out[1].x, out[1].y, out[1].width), (0, 3, None));
    assert_eq!(out[2].text.content, "2 two (dead)");
    assert!(out[2].text.selected);
    assert_eq!(
        out[2].text.color_ranges,
        vec![
            ColorRange { color: 0, start: 0, end: Some(1) },
            ColorRange { color: 3, start: 5, end: Some(12) },
        ]
    );
}

// Only the rows that fit are drawn, starting at the scroll offset.
#[test]
fn render_list_draws_visible_window() {
    let names: Vec<String> = (0..20).map(|i| format!("s{}", i)).collect();
    let items: Vec<ListItem<'_>> =
        names.iter().map(|name| ListItem { name: name.as_str(), marker: None }).collect();
    let config = PluginConfig::default();
    let out = render_list(&items, 15, "empty", &config, 10, 80);
    assert_eq!(out.len(), 5);
    assert_eq!(out[0].text.content, "12 s11");
    assert_eq!(out[0].y, 2);
    assert_eq!(out[4].text.content, "16 s15");
    assert_eq!(out[4].y, 6);
    assert!(out[4].text.selected);
}

// An empty list prints its message in the gutter.
#[test]
fn render_list_empty_message() {
    let items: Vec<ListItem<'_>> = vec![];
    let config = PluginConfig { list_padding: 4, ..Default::default() };
    let out = render_list(&items, 0, "Nothing", &config, 20, 2);
    assert_eq!(out.len(), 1);
    assert_eq!(out[0].text.content, "Nothing");
    assert_eq!((out[0].x, out[0].y, out[0].width), (4, 2, Some(0)));
}

// Marker ranges are in bytes, past a multi-byte name.
#[test]
fn render_list_marker_range_in_bytes() {
    let items = vec![ListItem { name: "caf\u{e9}", marker: Some(ListMarker { text: " (x)", color: 2 }) }];
    let config = PluginConfig { show_index_numbers: false, show_selection_highlight: false, ..Default::default() };
    let out = render_list(&items, 0, "empty", &config, 20, 80);
    assert_eq!(out[0].text.content, "caf\u{e9} (x)");
    assert_eq!(out[0].text.color_ranges, vec![ColorRange { color: 2, start: 5, end: Some(9) }]);
    assert!(!out[0].text.selected);
}

// The selected row is always within the visible window.
#[test]
fn scroll_offset_keeps_selected_visible() {
    for height in 1..8usize {
        for selected in 0..30usize {
            let offset = calculate_scroll_offset(selected, height);
            assert!(offset <= selected && selected < offset + height);
        }
    }
}
