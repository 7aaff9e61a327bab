use quick_memo::components::editor::Editor;

#[test]
fn new_editor_has_no_content() {
    let editor = Editor::new("non title".to_string());
    assert_eq!(editor.title, "non title");
    assert_eq!(editor.content, "");
}

#[test]
fn save_content_is_title_line_feed_content() {
    let mut editor = Editor::new("Title".to_string());
    assert_eq!(editor.get_save_content(), "Title\n");
    editor.content = "Body line 1\nBody line 2".to_string();
    assert_eq!(editor.get_save_content(), "Title\nBody line 1\nBody line 2");
    editor.title = String::new();
    editor.content = String::new();
    assert_eq!(editor.get_save_content(), "\n");
}

#[test]
fn scratch_content_round_trip() {
    let editor = Editor::from_content("Title\nBody line 1\nBody line 2".to_string());
    assert_eq!(editor.title, "Title");
    assert_eq!(editor.content, "Body line 1\nBody line 2");
    assert_eq!(editor.get_save_content(), "Title\nBody line 1\nBody line 2");
}

#[test]
fn editor_survives_save_and_restore() {
    for (title, content) in [("Title", ""), ("", ""), ("t", "a\n\nb"), ("non title", "x"), ("日本語", "本文\n二行目")] {
        let mut editor = Editor::new(title.to_string());
        editor.content = content.to_string();
        let restored = Editor::from_content(editor.get_save_content());
        assert_eq!(restored.title, title);
        assert_eq!(restored.content, content);
    }
}

#[test]
fn empty_scratch_file_gives_the_default_title() {
    let editor = Editor::from_content(String::new());
    assert_eq!(editor.title, "non title");
    assert_eq!(editor.content, "");
}

#[test]
fn scratch_file_of_one_line() {
    let editor = Editor::from_content("only a title".to_string());
    assert_eq!(editor.title, "only a title");
    assert_eq!(editor.content, "");
    let editor = Editor::from_content("\n".to_string());
    assert_eq!(editor.title, "");
    assert_eq!(editor.content, "");
}

#[test]
fn line_endings_are_made_plain() {
    let editor = Editor::from_content("Title\r\none\r\ntwo\r\n".to_string());
    assert_eq!(editor.title, "Title");
    assert_eq!(editor.content, "one\ntwo");
    let editor = Editor::from_content("Title\n\nbody\n\n".to_string());
    assert_eq!(editor.title, "Title");
    assert_eq!(editor.content, "\nbody\n");
}
