use text_editor::gui::TextEditor;

#[test]
fn new_file_clears_everything() {
    let mut ed = TextEditor::new();
    ed.open_finished("a.txt".to_string(), Ok("abc".to_string()));
    ed.new_file();
    assert_eq!(ed.content(), "");
    assert!(ed.filepath().is_none());
    assert_eq!(ed.status_message(), "New file created");
}

#[test]
fn open_success_adopts_path_and_content() {
    let mut ed = TextEditor::new();
    ed.open_finished("a.txt".to_string(), Ok("abc".to_string()));
    assert_eq!(ed.content(), "abc");
    assert_eq!(ed.filepath().as_deref(), Some("a.txt"));
    assert_eq!(ed.status_message(), "Opened: a.txt");
}

#[test]
fn open_failure_only_reports() {
    let mut ed = TextEditor::new();
    ed.open_finished("a.txt".to_string(), Ok("abc".to_string()));
    ed.open_finished("b.txt".to_string(), Err("denied".to_string()));
    assert_eq!(ed.content(), "abc");
    assert_eq!(ed.filepath().as_deref(), Some("a.txt"));
    assert_eq!(ed.status_message(), "Error opening file: denied");
}

#[test]
fn save_without_path_writes_nothing() {
    let mut ed = TextEditor::new();
    ed.set_content("abc".to_string());
    assert!(ed.save_file().is_none());
    assert_eq!(ed.status_message(), "No file path set. Use Save As.");
    assert_eq!(ed.content(), "abc");
}

#[test]
fn save_with_path_hands_back_the_write() {
    let mut ed = TextEditor::new();
    ed.open_finished("a.txt".to_string(), Ok("abc".to_string()));
    match ed.save_file() {
        Some((path, content)) => {
            assert_eq!(path, "a.txt");
            assert_eq!(content, "abc");
        }
        None => panic!("a path was set"),
    }
}

#[test]
fn save_outcome_reaches_the_status_line() {
    let mut ed = TextEditor::new();
    ed.save_finished("a.txt", None);
    assert_eq!(ed.status_message(), "Saved: a.txt");
    ed.save_finished("a.txt", Some("disk full".to_string()));
    assert_eq!(ed.status_message(), "Error saving: disk full");
}

#[test]
fn save_as_success_adopts_path() {
    let mut ed = TextEditor::new();
    ed.set_content("abc".to_string());
    ed.save_as_finished("b.txt".to_string(), None);
    assert_eq!(ed.filepath().as_deref(), Some("b.txt"));
    assert_eq!(ed.status_message(), "Saved as: b.txt");
}

#[test]
fn save_as_failure_keeps_old_path() {
    let mut ed = TextEditor::new();
    ed.open_finished("a.txt".to_string(), Ok("abc".to_string()));
    ed.save_as_finished("b.txt".to_string(), Some("denied".to_string()));
    assert_eq!(ed.filepath().as_deref(), Some("a.txt"));
    assert_eq!(ed.status_message(), "Error saving: denied");
}

#[test]
fn clear_content_keeps_path_and_status() {
    let mut ed = TextEditor::new();
    ed.open_finished("a.txt".to_string(), Ok("abc".to_string()));
    ed.clear_content();
    assert_eq!(ed.content(), "");
    assert_eq!(ed.filepath().as_deref(), Some("a.txt"));
    assert_eq!(ed.status_message(), "Opened: a.txt");
}
