use portfolio_tui::content::PageContent;
use portfolio_tui::footer::{footer_legend, footer_rule, footer_y};
use portfolio_tui::handler::Page;
use portfolio_tui::header::{
    banner_color, banner_lines, center_text, header_height, nav_bottom_border, nav_item,
    nav_row_segments, nav_top_border,
};
use portfolio_tui::layout::{split_lines, visible_height, visible_lines};
use portfolio_tui::markup::{classify_line, render_line, Color, LineKind};

#[test]
fn content_is_nonempty_for_every_page() {
    for page in [Page::Home, Page::Store, Page::About, Page::FAQ] {
        let text = PageContent::get_content(&page);
        assert!(!text.is_empty());
    }
}

#[test]
fn content_is_a_pure_function_of_the_page() {
    for page in [Page::Home, Page::Store, Page::About, Page::FAQ] {
        let first = PageContent::get_content(&page);
        let second = PageContent::get_content(&page);
        assert_eq!(first, second);
    }
}

#[test]
fn pages_have_distinct_content() {
    let home = PageContent::get_content(&Page::Home);
    let projects = PageContent::get_content(&Page::Store);
    let about = PageContent::get_content(&Page::About);
    let contact = PageContent::get_content(&Page::FAQ);
    assert_ne!(home, projects);
    assert_ne!(about, contact);
    assert_ne!(home, about);
}

#[test]
fn classification_is_prefix_priority_deterministic() {
    assert_eq!(classify_line("## X"), LineKind::Heading2);
    assert_ne!(classify_line("## X"), LineKind::Heading1);
    assert_eq!(classify_line("# X"), LineKind::Heading1);
    assert_eq!(classify_line("- X"), LineKind::Bullet);
    assert_eq!(classify_line("```anything after"), LineKind::CodeFence);
    assert_eq!(classify_line("```"), LineKind::CodeFence);
    assert_eq!(classify_line("just text"), LineKind::Plain);
}

#[test]
fn classification_edge_cases_are_plain() {
    assert_eq!(classify_line(""), LineKind::Plain);
    assert_eq!(classify_line("#"), LineKind::Plain);
    assert_eq!(classify_line("##X"), LineKind::Plain);
    assert_eq!(classify_line("#X"), LineKind::Plain);
    assert_eq!(classify_line("-X"), LineKind::Plain);
    assert_eq!(classify_line("``"), LineKind::Plain);
    assert_eq!(classify_line(" # indented"), LineKind::Plain);
}

#[test]
fn heading2_renders_stripped_bold_green() {
    let segs = render_line("## Section");
    assert_eq!(segs.len(), 1);
    assert_eq!(segs[0].text, "Section");
    assert_eq!(segs[0].color, Color::Green);
    assert!(segs[0].bold);
    assert!(!segs[0].dim);
}

#[test]
fn heading1_renders_stripped_bold_cyan() {
    let segs = render_line("# Title");
    assert_eq!(segs.len(), 1);
    assert_eq!(segs[0].text, "Title");
    assert_eq!(segs[0].color, Color::Cyan);
    assert!(segs[0].bold);
}

#[test]
fn bullet_renders_glyph_then_body() {
    let segs = render_line("- item one");
    assert_eq!(segs.len(), 2);
    assert_eq!(segs[0].text, "● ");
    assert_eq!(segs[0].color, Color::Yellow);
    assert_eq!(segs[1].text, "item one");
    assert_eq!(segs[1].color, Color::White);
    assert!(!segs[1].bold);
}

#[test]
fn code_fence_keeps_whole_line_dim_magenta() {
    let segs = render_line("```rust");
    assert_eq!(segs.len(), 1);
    assert_eq!(segs[0].text, "```rust");
    assert_eq!(segs[0].color, Color::Magenta);
    assert!(segs[0].dim);
    assert!(!segs[0].bold);
}

#[test]
fn plain_line_renders_whole_in_white() {
    let segs = render_line("nothing special");
    assert_eq!(segs.len(), 1);
    assert_eq!(segs[0].text, "nothing special");
    assert_eq!(segs[0].color, Color::White);
    assert!(!segs[0].bold);
    assert!(!segs[0].dim);
}

#[test]
fn split_lines_cases() {
    assert!(split_lines("").is_empty());
    assert_eq!(split_lines("a"), vec!["a".to_string()]);
    assert_eq!(split_lines("a\nb"), vec!["a".to_string(), "b".to_string()]);
    assert_eq!(split_lines("a\n"), vec!["a".to_string()]);
    assert_eq!(split_lines("\n"), vec!["".to_string()]);
    assert_eq!(
        split_lines("one\n\ntwo"),
        vec!["one".to_string(), "".to_string(), "two".to_string()]
    );
}

#[test]
fn viewport_height_reserves_three_footer_rows() {
    assert_eq!(visible_height(24, 9), 12);
    assert_eq!(visible_height(12, 9), 0);
    assert_eq!(visible_height(11, 9), 0);
    assert_eq!(visible_height(2, 0), 0);
    assert_eq!(visible_height(3, 0), 0);
    assert_eq!(visible_height(4, 0), 1);
}

#[test]
fn scroll_past_end_yields_empty_window() {
    let lines: Vec<String> = vec!["a".into(), "b".into(), "c".into()];
    assert!(visible_lines(&lines, 3, 9, 24).is_empty());
    assert!(visible_lines(&lines, 100, 9, 24).is_empty());
    assert!(visible_lines(&lines, usize::MAX, 9, 24).is_empty());
}

#[test]
fn zero_height_viewport_yields_empty_window() {
    let lines: Vec<String> = vec!["a".into(), "b".into()];
    assert!(visible_lines(&lines, 0, 9, 12).is_empty());
}

#[test]
fn visible_window_maps_lines_to_rows() {
    let lines: Vec<String> = (0..30).map(|i| i.to_string()).collect();
    let vis = visible_lines(&lines, 3, 9, 24);
    assert_eq!(vis.len(), 12);
    assert_eq!(vis[0], (9, "3".to_string()));
    assert_eq!(vis[11], (20, "14".to_string()));
}

#[test]
fn visible_window_is_cut_short_by_content_end() {
    let lines: Vec<String> = vec!["x".into(), "y".into(), "z".into()];
    let vis = visible_lines(&lines, 1, 9, 24);
    assert_eq!(vis.len(), 2);
    assert_eq!(vis[0], (9, "y".to_string()));
    assert_eq!(vis[1], (10, "z".to_string()));
}

#[test]
fn scrolled_home_page_starts_at_third_line() {
    let text = PageContent::get_content(&Page::Home);
    let lines = split_lines(text.as_str());
    let vis = visible_lines(&lines, 3, 9, 24);
    assert_eq!(vis[0].0, 9);
    assert_eq!(vis[0].1, lines[3]);
}

#[test]
fn header_height_is_eight_for_every_page() {
    for page in [Page::Home, Page::Store, Page::About, Page::FAQ] {
        assert_eq!(header_height(&page), 8);
    }
}

#[test]
fn center_text_pads_both_sides() {
    assert_eq!(center_text("ab", 6), "  ab  ");
    assert_eq!(center_text("abc", 6), " abc ");
    assert_eq!(center_text("abcdef", 2), "abcdef");
    assert_eq!(center_text("", 4), "    ");
}

#[test]
fn nav_item_marks_the_current_page() {
    assert_eq!(nav_item("HOME", true), "   ● HOME   ");
    assert_eq!(nav_item("HOME", false), "   ○ HOME   ");
    assert_eq!(nav_item("PROJECTS", true), " ● PROJECTS ");
    assert_eq!(nav_item("ABOUT", false), "  ○ ABOUT  ");
    assert_eq!(nav_item("CONTACT", false), " ○ CONTACT ");
}

#[test]
fn nav_borders_match_cell_widths() {
    let top = nav_top_border(&Page::Home);
    let expected_top = format!(
        "╭{}┬{}┬{}┬{}╮",
        "─".repeat(12),
        "─".repeat(12),
        "─".repeat(11),
        "─".repeat(11)
    );
    assert_eq!(top, expected_top);
    let bottom = nav_bottom_border(&Page::Home);
    let expected_bottom = format!(
        "╰{}┴{}┴{}┴{}╯",
        "─".repeat(12),
        "─".repeat(12),
        "─".repeat(11),
        "─".repeat(11)
    );
    assert_eq!(bottom, expected_bottom);
    assert_eq!(nav_top_border(&Page::About), expected_top);
}

#[test]
fn nav_row_highlights_the_current_page() {
    let segs = nav_row_segments(&Page::Store);
    assert_eq!(segs.len(), 9);
    for i in [0, 2, 4, 6, 8] {
        assert_eq!(segs[i].text, "│");
        assert_eq!(segs[i].color, Color::DarkGrey);
    }
    assert_eq!(segs[1].text, "   ○ HOME   ");
    assert_eq!(segs[1].color, Color::Grey);
    assert!(!segs[1].bold);
    assert_eq!(segs[3].text, " ● PROJECTS ");
    assert_eq!(segs[3].color, Color::Cyan);
    assert!(segs[3].bold);
    assert_eq!(segs[5].text, "  ○ ABOUT  ");
    assert_eq!(segs[7].text, " ○ CONTACT ");
}

#[test]
fn banner_has_six_lines_cycling_six_colors() {
    let lines = banner_lines();
    assert_eq!(lines.len(), 6);
    for line in &lines {
        assert!(!line.is_empty());
    }
    assert_eq!(banner_color(0), Color::Magenta);
    assert_eq!(banner_color(1), Color::Blue);
    assert_eq!(banner_color(2), Color::Cyan);
    assert_eq!(banner_color(3), Color::Green);
    assert_eq!(banner_color(4), Color::Yellow);
    assert_eq!(banner_color(5), Color::Red);
    assert_eq!(banner_color(6), Color::Magenta);
    assert_eq!(banner_color(13), Color::Blue);
}

#[test]
fn footer_rule_spans_the_width() {
    assert_eq!(footer_rule(5), "─────");
    assert_eq!(footer_rule(0), "");
}

#[test]
fn footer_sits_two_rows_above_the_bottom() {
    assert_eq!(footer_y(24), 22);
    assert_eq!(footer_y(2), 0);
}

#[test]
fn footer_legend_lists_the_shortcuts() {
    let segs = footer_legend();
    assert_eq!(segs.len(), 13);
    assert_eq!(segs[0].text, "Navigation: ");
    assert_eq!(segs[0].color, Color::Grey);
    assert_eq!(segs[1].text, "a");
    assert_eq!(segs[1].color, Color::Cyan);
    assert_eq!(segs[11].text, "↑↓");
    assert_eq!(segs[12].text, " Scroll");
    for seg in &segs {
        assert!(!seg.bold);
        assert!(!seg.dim);
    }
}

#[test]
fn home_content_classifies_as_expected() {
    let text = PageContent::get_content(&Page::Home);
    let lines = split_lines(text.as_str());
    assert!(lines
        .iter()
        .any(|l| classify_line(l.as_str()) == LineKind::Heading1));
    assert!(lines
        .iter()
        .any(|l| classify_line(l.as_str()) == LineKind::Heading2));
    assert!(lines
        .iter()
        .any(|l| classify_line(l.as_str()) == LineKind::Bullet));
    assert!(lines
        .iter()
        .any(|l| classify_line(l.as_str()) == LineKind::CodeFence));
}
