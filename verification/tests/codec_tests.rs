use text_editor::codec::{count_lines, join_lines, split_lines};
use text_editor::editor::{Editor, SaveAction};

fn chars(s: &str) -> Vec<char> {
    s.chars().collect()
}

fn split(s: &str) -> Vec<String> {
    split_lines(&chars(s)).iter().map(|l| l.iter().collect()).collect()
}

fn join(lines: &[&str]) -> String {
    let lines: Vec<Vec<char>> = lines.iter().map(|l| chars(l)).collect();
    join_lines(&lines).iter().collect()
}

#[test]
fn split_on_line_feeds() {
    assert_eq!(split("a\nb"), vec!["a".to_string(), "b".to_string()]);
}

#[test]
fn split_drops_final_terminator() {
    assert_eq!(split("a\n"), vec!["a".to_string()]);
}

#[test]
fn split_empty_content_has_no_lines() {
    assert_eq!(split(""), Vec::<String>::new());
}

#[test]
fn split_handles_windows_line_endings() {
    assert_eq!(split("a\r\nb\r\n"), vec!["a".to_string(), "b".to_string()]);
}

#[test]
fn split_keeps_carriage_return_inside_line() {
    assert_eq!(split("a\rb"), vec!["a\rb".to_string()]);
}

#[test]
fn split_keeps_trailing_carriage_return_without_line_feed() {
    assert_eq!(split("abc\r"), vec!["abc\r".to_string()]);
}

#[test]
fn split_keeps_empty_middle_lines() {
    assert_eq!(split("\n\n"), vec![String::new(), String::new()]);
}

#[test]
fn join_separates_with_line_feeds() {
    assert_eq!(join(&["a", "b"]), "a\nb");
    assert_eq!(join(&["a"]), "a");
    assert_eq!(join(&[""]), "");
}

#[test]
fn load_then_save_reproduces_content() {
    let content = "hello\nworld";
    let mut ed = Editor::new();
    ed.load_content("f.txt", &chars(content));
    match ed.prepare_save() {
        SaveAction::Write { filename, content: saved } => {
            assert_eq!(filename, "f.txt");
            let saved: String = saved.iter().collect();
            assert_eq!(saved, content);
        }
        SaveAction::NoFilename => panic!("a filename was set"),
    }
}

#[test]
fn load_then_save_normalizes_line_separators() {
    let mut ed = Editor::new();
    ed.load_content("f.txt", &chars("a\r\nb\n"));
    match ed.prepare_save() {
        SaveAction::Write { content: saved, .. } => {
            let saved: String = saved.iter().collect();
            assert_eq!(saved, "a\nb");
        }
        SaveAction::NoFilename => panic!("a filename was set"),
    }
}

#[test]
fn count_lines_matches_split() {
    assert_eq!(count_lines(&chars("")), 0);
    assert_eq!(count_lines(&chars("a")), 1);
    assert_eq!(count_lines(&chars("a\nb")), 2);
    assert_eq!(count_lines(&chars("a\n")), 1);
    assert_eq!(count_lines(&chars("\n\n")), 2);
}
