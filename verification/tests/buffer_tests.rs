use text_editor::editor::{Editor, SaveAction};

fn chars(s: &str) -> Vec<char> {
    s.chars().collect()
}

fn make(lines: &[&str], row: usize, col: usize) -> Editor {
    let lines: Vec<Vec<char>> = lines.iter().map(|l| chars(l)).collect();
    Editor::from_parts(lines, None, row, col).unwrap()
}

fn buffer(ed: &Editor) -> Vec<String> {
    ed.lines().iter().map(|l| l.iter().collect()).collect()
}

fn cursor(ed: &Editor) -> (usize, usize) {
    (ed.cursor_row(), ed.cursor_col())
}

#[test]
fn new_session_is_single_empty_line() {
    let ed = Editor::new();
    assert_eq!(buffer(&ed), vec![String::new()]);
    assert_eq!(cursor(&ed), (0, 0));
    assert!(ed.filename().is_none());
}

#[test]
fn typing_builds_a_line() {
    let mut ed = Editor::new();
    ed.insert_char('h');
    ed.insert_char('i');
    assert_eq!(buffer(&ed), vec!["hi".to_string()]);
    assert_eq!(cursor(&ed), (0, 2));
}

#[test]
fn insert_then_delete_restores_buffer() {
    let mut ed = make(&["ab"], 0, 1);
    ed.insert_char('x');
    assert_eq!(buffer(&ed), vec!["axb".to_string()]);
    assert_eq!(cursor(&ed), (0, 2));
    ed.delete_char();
    assert_eq!(buffer(&ed), vec!["ab".to_string()]);
    assert_eq!(cursor(&ed), (0, 1));
}

#[test]
fn newline_then_delete_restores_buffer() {
    let mut ed = make(&["abcd"], 0, 2);
    ed.insert_newline();
    assert_eq!(buffer(&ed), vec!["ab".to_string(), "cd".to_string()]);
    assert_eq!(cursor(&ed), (1, 0));
    ed.delete_char();
    assert_eq!(buffer(&ed), vec!["abcd".to_string()]);
    assert_eq!(cursor(&ed), (0, 2));
}

#[test]
fn delete_at_origin_is_noop() {
    let mut ed = make(&["ab", "cd"], 0, 0);
    ed.delete_char();
    assert_eq!(buffer(&ed), vec!["ab".to_string(), "cd".to_string()]);
    assert_eq!(cursor(&ed), (0, 0));
}

#[test]
fn delete_inside_line() {
    let mut ed = make(&["ab"], 0, 2);
    ed.delete_char();
    assert_eq!(buffer(&ed), vec!["a".to_string()]);
    assert_eq!(cursor(&ed), (0, 1));
}

#[test]
fn newline_splits_cursor_line() {
    let mut ed = make(&["ab", "cd"], 0, 2);
    ed.insert_newline();
    assert_eq!(
        buffer(&ed),
        vec!["ab".to_string(), String::new(), "cd".to_string()]
    );
    assert_eq!(cursor(&ed), (1, 0));
}

#[test]
fn delete_at_column_zero_merges_lines() {
    let mut ed = make(&["ab", "cd"], 1, 0);
    ed.delete_char();
    assert_eq!(buffer(&ed), vec!["abcd".to_string()]);
    assert_eq!(cursor(&ed), (0, 2));
}

#[test]
fn from_parts_refuses_bad_cursor() {
    assert!(Editor::from_parts(vec![chars("a")], None, 0, 5).is_none());
    assert!(Editor::from_parts(vec![chars("a")], None, 1, 0).is_none());
    assert!(Editor::from_parts(Vec::new(), None, 0, 0).is_none());
}

#[test]
fn save_as_sets_filename_and_returns_content() {
    let mut ed = make(&["ab", "cd"], 0, 0);
    let content = ed.save_as("f.txt");
    let content: String = content.iter().collect();
    assert_eq!(content, "ab\ncd");
    assert_eq!(ed.filename().as_deref(), Some("f.txt"));
}

#[test]
fn prepare_save_without_filename_writes_nothing() {
    let ed = make(&["ab"], 0, 0);
    assert!(matches!(ed.prepare_save(), SaveAction::NoFilename));
}

#[test]
fn prepare_save_with_filename_yields_write() {
    let mut ed = make(&["ab", "cd"], 0, 0);
    ed.set_filename("out.txt");
    match ed.prepare_save() {
        SaveAction::Write { filename, content } => {
            assert_eq!(filename, "out.txt");
            let content: String = content.iter().collect();
            assert_eq!(content, "ab\ncd");
        }
        SaveAction::NoFilename => panic!("a filename was set"),
    }
}

#[test]
fn load_content_replaces_buffer() {
    let mut ed = Editor::new();
    ed.load_content("in.txt", &chars("x\ny"));
    assert_eq!(buffer(&ed), vec!["x".to_string(), "y".to_string()]);
    assert_eq!(ed.filename().as_deref(), Some("in.txt"));
    assert_eq!(cursor(&ed), (0, 0));
}

#[test]
fn load_empty_content_seeds_one_line() {
    let mut ed = Editor::new();
    ed.load_content("in.txt", &Vec::new());
    assert_eq!(buffer(&ed), vec![String::new()]);
}
