use text_decorations::{
    split_lines,
    CopilotDecoration, Cursor, Decoration, DecorationManager, DrawnGrapheme, FormattedGrapheme, LinePos, Position, Style,
    TextRenderer, Viewport,
};

/// Lays `text` out on one row, one column per character, with character
/// indices starting at `first_char` and columns at `first_col`.
fn layout(text: &str, first_char: usize, row: usize, first_col: usize) -> Vec<FormattedGrapheme> {
    text.chars()
        .enumerate()
        .map(|(i, c)| FormattedGrapheme {
            char_idx: first_char + i,
            visual_pos: Position { row, col: first_col + i },
            raw: c.to_string(),
        })
        .collect()
}

fn suggestion_lines(text: &str) -> Vec<Vec<FormattedGrapheme>> {
    split_lines(text).iter().map(|line| layout(line, 0, 0, 0)).collect()
}

fn style() -> Style {
    Style { fg: Some(0x808080), bg: None }
}

fn line(doc_line: usize, visual_line: u16) -> LinePos {
    LinePos { first_visual_line: true, doc_line, visual_line, start_char_idx: 0 }
}

fn renderer(width: u16, height: u16, col_offset: usize) -> TextRenderer {
    TextRenderer::new(Viewport { width, height }, col_offset)
}

fn cursor_cache(m: &DecorationManager, i: usize) -> Option<Position> {
    match &m.decorations[i].0 {
        Decoration::Cursor(c) => c.cache,
        Decoration::Copilot(_) => panic!("not a cursor"),
    }
}

fn drawn_at(r: &TextRenderer, row: u16) -> String {
    let mut cells: Vec<&DrawnGrapheme> = r.drawn.iter().filter(|d| d.row == row).collect();
    cells.sort_by_key(|d| d.col);
    cells.iter().map(|d| d.text.as_str()).collect()
}

#[test]
fn cursor_position_recorded_at_visible_column() {
    let mut m = DecorationManager::new();
    m.add_decoration(Decoration::Cursor(Cursor::new(42)));
    let mut r = renderer(80, 24, 5);
    m.prepare_for_rendering(30);
    for g in layout("abcdefghijklmnop", 35, 2, 10) {
        m.decorate_grapheme(&mut r, &g);
    }
    // Index 42 is at visual column 17, scrolled left by 5.
    assert_eq!(cursor_cache(&m, 0), Some(Position { row: 2, col: 12 }));
    assert!(r.drawn.is_empty());
}

#[test]
fn cursor_untouched_when_index_never_appears() {
    let mut m = DecorationManager::new();
    m.add_decoration(Decoration::Cursor(Cursor::new(42)));
    let mut r = renderer(80, 24, 0);
    m.prepare_for_rendering(0);
    let mut stream = layout("ab", 40, 0, 0);
    stream.extend(layout("cd", 43, 0, 2));
    for g in &stream {
        m.decorate_grapheme(&mut r, g);
    }
    assert_eq!(cursor_cache(&m, 0), None);
    assert_eq!(m.decorations[0].1, None);
}

#[test]
fn cursor_untouched_when_column_scrolled_out() {
    let mut m = DecorationManager::new();
    m.add_decoration(Decoration::Cursor(Cursor::new(42)));
    let mut r = renderer(10, 24, 20);
    m.prepare_for_rendering(0);
    for g in layout("abcde", 40, 0, 0) {
        m.decorate_grapheme(&mut r, &g);
    }
    assert_eq!(cursor_cache(&m, 0), None);
    assert_eq!(m.decorations[0].1, None);
}

#[test]
fn cursor_reached_through_concealed_span() {
    let mut m = DecorationManager::new();
    m.add_decoration(Decoration::Cursor(Cursor::new(42)));
    let mut r = renderer(80, 24, 0);
    // Never prepared: the anchor is still 0 and is skipped forward.
    let g = &layout("x", 42, 3, 7)[0];
    m.decorate_grapheme(&mut r, g);
    assert_eq!(cursor_cache(&m, 0), Some(Position { row: 3, col: 7 }));
}

#[test]
fn cursor_fires_once_per_frame() {
    let mut m = DecorationManager::new();
    m.add_decoration(Decoration::Cursor(Cursor::new(42)));
    let mut r = renderer(80, 24, 0);
    m.prepare_for_rendering(0);
    let first = &layout("x", 42, 1, 4)[0];
    let second = &layout("y", 42, 2, 9)[0];
    m.decorate_grapheme(&mut r, first);
    m.decorate_grapheme(&mut r, second);
    assert_eq!(cursor_cache(&m, 0), Some(Position { row: 1, col: 4 }));
}

#[test]
fn prepare_sets_anchors_at_or_after_first_visible_char() {
    let mut m = DecorationManager::default();
    m.add_decoration(Decoration::Cursor(Cursor::new(42)));
    m.add_decoration(Decoration::Cursor(Cursor::new(60)));
    m.add_decoration(Decoration::Copilot(CopilotDecoration::new(style(), suggestion_lines("x"), 0, 0)));
    assert_eq!(m.decorations[0].1, Some(0));
    m.prepare_for_rendering(50);
    assert_eq!(m.decorations[0].1, None);
    assert_eq!(m.decorations[1].1, Some(60));
    assert_eq!(m.decorations[2].1, None);
    m.prepare_for_rendering(42);
    assert_eq!(m.decorations[0].1, Some(42));
}

#[test]
fn suggestion_paints_first_line_and_virtual_lines() {
    let mut m = DecorationManager::new();
    m.add_decoration(Decoration::Copilot(CopilotDecoration::new(style(), suggestion_lines("foo(\n  bar,\n)"), 3, 0)));
    let mut r = renderer(80, 24, 0);
    let pos = line(3, 3);
    m.decorate_line(&mut r, pos);
    assert_eq!(drawn_at(&r, 3), "foo(");
    assert_eq!(r.drawn[0], DrawnGrapheme { text: "f".to_string(), style: style(), row: 3, col: 0 });
    m.render_virtual_lines(&mut r, pos);
    assert_eq!(drawn_at(&r, 4), "  bar,");
    assert_eq!(drawn_at(&r, 5), ")");
    assert_eq!(r.drawn.len(), 4 + 6 + 1);
}

#[test]
fn suggestion_virtual_rows_counted() {
    let s = CopilotDecoration::new(style(), suggestion_lines("foo(\n  bar,\n)"), 3, 0);
    let mut r = renderer(80, 24, 0);
    assert_eq!(s.render_virt_lines(&mut r, line(3, 3), 1), 2);
    assert_eq!(drawn_at(&r, 4), "  bar,");
    assert_eq!(drawn_at(&r, 5), ")");
    assert_eq!(s.render_virt_lines(&mut r, line(4, 6), 1), 0);
    assert_eq!(r.drawn.len(), 7);
}

#[test]
fn suggestion_ignores_other_lines() {
    let s = CopilotDecoration::new(style(), suggestion_lines("foo\nbar"), 3, 0);
    let mut r = renderer(80, 24, 0);
    s.decorate_line(&mut r, line(2, 2));
    assert!(r.drawn.is_empty());
}

#[test]
fn suggestion_starts_at_insertion_column() {
    let s = CopilotDecoration::new(style(), suggestion_lines("abcd"), 0, 2);
    let mut r = renderer(80, 24, 0);
    s.decorate_line(&mut r, line(0, 0));
    assert_eq!(drawn_at(&r, 0), "cd");
    assert_eq!(r.drawn[0].col, 2);
}

#[test]
fn suggestion_clipped_at_viewport_edge() {
    let s = CopilotDecoration::new(style(), suggestion_lines("abcdef"), 0, 0);
    let mut r = renderer(4, 24, 0);
    s.decorate_line(&mut r, line(0, 0));
    assert_eq!(drawn_at(&r, 0), "abcd");
}

#[test]
fn virtual_rows_stack_in_registration_order() {
    let mut m = DecorationManager::new();
    m.add_decoration(Decoration::Copilot(CopilotDecoration::new(style(), suggestion_lines("a\nb\nc"), 0, 0)));
    m.add_decoration(Decoration::Copilot(CopilotDecoration::new(style(), suggestion_lines("x\ny\nz"), 0, 0)));
    let mut r = renderer(80, 24, 0);
    m.render_virtual_lines(&mut r, line(0, 0));
    assert_eq!(drawn_at(&r, 1), "b");
    assert_eq!(drawn_at(&r, 2), "c");
    assert_eq!(drawn_at(&r, 3), "y");
    assert_eq!(drawn_at(&r, 4), "z");
}

#[test]
fn virtual_rows_stop_at_viewport_bottom() {
    let mut m = DecorationManager::new();
    m.add_decoration(Decoration::Copilot(CopilotDecoration::new(style(), suggestion_lines("a\nb\nc"), 0, 0)));
    m.add_decoration(Decoration::Copilot(CopilotDecoration::new(style(), suggestion_lines("x\ny"), 0, 0)));
    let mut r = renderer(80, 5, 0);
    m.render_virtual_lines(&mut r, line(0, 3));
    // The first suggestion gets row 4 (row 5 is below the viewport); the
    // second would start at row 6 and is skipped.
    assert_eq!(drawn_at(&r, 4), "b");
    assert_eq!(r.drawn.len(), 1);
}

#[test]
fn virtual_lines_skipped_on_last_row() {
    let mut m = DecorationManager::new();
    m.add_decoration(Decoration::Copilot(CopilotDecoration::new(style(), suggestion_lines("a\nb"), 0, 0)));
    let mut r = renderer(80, 5, 0);
    m.render_virtual_lines(&mut r, line(0, 4));
    assert!(r.drawn.is_empty());
}

#[test]
fn column_bounds_follow_scroll() {
    let r = renderer(10, 5, 3);
    assert!(!r.column_in_bounds(2));
    assert!(r.column_in_bounds(3));
    assert!(r.column_in_bounds(12));
    assert!(!r.column_in_bounds(13));
}

#[test]
fn draw_outside_viewport_dropped() {
    let mut r = renderer(10, 5, 0);
    assert!(!r.draw_decoration_grapheme(&"a".to_string(), style(), 5, 0));
    assert!(!r.draw_decoration_grapheme(&"a".to_string(), style(), 0, 10));
    assert!(r.draw_decoration_grapheme(&"a".to_string(), style(), 4, 9));
    assert_eq!(r.drawn.len(), 1);
}

#[test]
fn cursor_line_hooks_draw_nothing() {
    let mut m = DecorationManager::new();
    m.add_decoration(Decoration::Cursor(Cursor::new(0)));
    let mut r = renderer(80, 24, 0);
    m.decorate_line(&mut r, line(0, 0));
    m.render_virtual_lines(&mut r, line(0, 0));
    assert!(r.drawn.is_empty());
}

#[test]
fn split_lines_at_line_breaks() {
    assert_eq!(split_lines("foo(\n  bar,\n)"), vec!["foo(".to_string(), "  bar,".to_string(), ")".to_string()]);
    assert_eq!(split_lines("plain"), vec!["plain".to_string()]);
    assert_eq!(split_lines(""), vec![String::new()]);
    assert_eq!(split_lines("a\n"), vec!["a".to_string(), String::new()]);
    assert_eq!(split_lines("\n\nb"), vec![String::new(), String::new(), "b".to_string()]);
}

#[test]
fn split_lines_keeps_multibyte_characters() {
    assert_eq!(split_lines("é\nλx"), vec!["é".to_string(), "λx".to_string()]);
}
