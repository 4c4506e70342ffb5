use text_editor::editor::Editor;
use text_editor::render::render_buffer;

fn chars(s: &str) -> Vec<char> {
    s.chars().collect()
}

fn render(lines: &[&str], row: usize, col: usize) -> String {
    let lines: Vec<Vec<char>> = lines.iter().map(|l| chars(l)).collect();
    let ed = Editor::from_parts(lines, None, row, col).unwrap();
    render_buffer(&ed).iter().collect()
}

#[test]
fn cursor_at_end_of_line_shows_block() {
    assert_eq!(render(&["ab"], 0, 2), "  1 > ab\u{2588}\n");
}

#[test]
fn cursor_inside_line_shows_no_block() {
    assert_eq!(render(&["ab"], 0, 1), "  1 > ab\n");
}

#[test]
fn only_the_cursor_row_is_marked() {
    assert_eq!(render(&["a", "b"], 1, 1), "  1   a\n  2 > b\u{2588}\n");
}

#[test]
fn line_numbers_align_right() {
    let lines: Vec<&str> = (0..12).map(|_| "x").collect();
    let out = render(&lines, 0, 0);
    let rows: Vec<&str> = out.lines().collect();
    assert_eq!(rows[0], "  1 > x");
    assert_eq!(rows[8], "  9   x");
    assert_eq!(rows[9], " 10   x");
    assert_eq!(rows[11], " 12   x");
}
