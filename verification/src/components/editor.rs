//! The editor pane: the title and the content of the memo being edited.

use crate::models::memo::default_title;
use crate::text::{
    join_lines, joined, lemma_join_plain_lines, lemma_line_end, line_end, lines_from, lines_of,
    plain_from, split_lines, strip_cr,
};
use vstd::prelude::*;

verus! {

/// The two texts of the editor pane.
pub struct Editor {
    pub title: String,
    pub content: String,
}

/// The editor as a mathematical value.
pub struct EditorView {
    pub title: Seq<char>,
    pub content: Seq<char>,
}

impl View for Editor {
    type V = EditorView;

    open spec fn view(&self) -> EditorView {
        EditorView { title: self.title@, content: self.content@ }
    }
}

impl EditorView {
    /// The editor with the default title and no content.
    pub open spec fn blank() -> EditorView {
        EditorView { title: default_title(), content: Seq::empty() }
    }

    /// The text that is saved for this editor: the title, a line feed, the
    /// content.
    pub open spec fn save_content(self) -> Seq<char> {
        self.title + seq!['\n'] + self.content
    }

    /// The editor that a saved text gives: its first line is the title, or
    /// the default title where the text has no line; the lines after it,
    /// with a line feed between each two, are the content.
    pub open spec fn restored(saved: Seq<char>) -> EditorView {
        let lines = lines_of(saved);
        EditorView {
            title: if lines.len() == 0 {
                default_title()
            } else {
                lines[0]
            },
            content: if lines.len() == 0 {
                Seq::empty()
            } else {
                joined(lines.skip(1), seq!['\n'])
            },
        }
    }
}

impl Editor {
    /// An editor with the title `title` and no content.
    pub fn new(title: String) -> (editor: Self)
        ensures
            editor@ == (EditorView { title: title@, content: Seq::empty() }),
    {
        Editor { title, content: String::new() }
    }

    /// The editor that the saved text `saved_content` gives.
    pub fn from_content(saved_content: String) -> (editor: Self)
        ensures
            editor@ == EditorView::restored(saved_content@),
    {
        let lines = split_lines(saved_content.as_str());
        if lines.len() == 0 {
            Editor { title: String::from_str("non title"), content: String::new() }
        } else {
            Editor { title: lines[0].clone(), content: join_lines(&lines, 1) }
        }
    }

    /// The text to save for this editor.
    pub fn get_save_content(&self) -> (text: String)
        ensures
            text@ == self@.save_content(),
    {
        let mut text = self.title.clone();
        text.push('\n');
        text.append(self.content.as_str());
        text
    }
}

/// The editor comes back from what was saved for it: where the title is a
/// single line that ends with no carriage return, and the content is made
/// of plain lines, restoring the saved text gives title and content again.
pub proof fn lemma_restored_after_save(editor: EditorView)
    requires
        forall|i: int| 0 <= i < editor.title.len() ==> editor.title[i] != '\n',
        editor.title.len() > 0 ==> editor.title.last() != '\r',
        plain_from(editor.content, 0),
    ensures
        EditorView::restored(editor.save_content()) == editor,
{
    let title = editor.title;
    let saved = editor.save_content();
    let body: int = title.len() as int + 1;
    assert(saved[title.len() as int] == '\n');
    assert forall|i: int| 0 <= i < title.len() implies saved[i] == title[i] by {}
    assert forall|i: int| 0 <= i < editor.content.len() implies saved[body + i]
        == editor.content[i] by {}
    lemma_line_end(saved, 0);
    assert(line_end(saved, 0) == title.len());
    assert(saved.subrange(0, title.len() as int) =~= title);
    assert(strip_cr(title) == title);
    let lines = lines_of(saved);
    assert(lines == seq![title] + lines_from(saved, body));
    assert(lines.skip(1) =~= lines_from(saved, body));
    assert(plain_from(saved, body)) by {
        assert forall|i: int|
            body <= i < saved.len() - 1 && #[trigger] saved[i] == '\r' implies saved[i + 1]
            != '\n' by {
            assert(saved[i] == editor.content[i - body]);
            assert(saved[i + 1] == editor.content[i - body + 1]);
        }
        if body < saved.len() {
            assert(saved.last() == editor.content.last());
        }
    }
    lemma_join_plain_lines(saved, body, body);
    assert(saved.skip(body) =~= editor.content);
}

} // verus!
