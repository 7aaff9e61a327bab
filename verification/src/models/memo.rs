//! A memo: one note of the user.

use crate::models::timestamp::{format_time, formatted_time, local_now, Timestamp};
use crate::text::{decimal, to_decimal};
use vstd::prelude::*;

verus! {

/// One note: its identity, what it says, when it was made and last changed,
/// and the file it is stored in, once it has one.
pub struct Memo {
    /// Identifies the memo: the millisecond it was made in, in decimal.
    pub id: String,
    pub title: String,
    pub content: String,
    pub created_at: Timestamp,
    pub updated_at: Timestamp,
    /// The file that holds the memo. It is no part of what is stored.
    pub file_path: Option<String>,
}

/// A memo as a mathematical value.
pub struct MemoView {
    pub id: Seq<char>,
    pub title: Seq<char>,
    pub content: Seq<char>,
    pub created_at: Timestamp,
    pub updated_at: Timestamp,
    pub file_path: Option<Seq<char>>,
}

impl View for Memo {
    type V = MemoView;

    open spec fn view(&self) -> MemoView {
        MemoView {
            id: self.id@,
            title: self.title@,
            content: self.content@,
            created_at: self.created_at,
            updated_at: self.updated_at,
            file_path: self.file_path.deep_view(),
        }
    }
}

impl DeepView for Memo {
    type V = MemoView;

    open spec fn deep_view(&self) -> MemoView {
        self@
    }
}

/// The title of a memo that has none yet.
pub open spec fn default_title() -> Seq<char> {
    "non title"@
}

/// The strftime pattern of `Memo::display_date`.
pub open spec fn date_pattern() -> Seq<char> {
    "%Y年%m月%d日 %H:%M:%S"@
}

impl MemoView {
    /// The memo that is made at the time `now`: named after its
    /// millisecond, with the default title, no content and no file.
    pub open spec fn fresh(now: Timestamp) -> MemoView {
        MemoView {
            id: decimal(now.spec_millis()),
            title: default_title(),
            content: Seq::empty(),
            created_at: now,
            updated_at: now,
            file_path: None,
        }
    }

    /// This memo is one that was just made, at whatever time.
    pub open spec fn is_fresh(self) -> bool {
        self == MemoView::fresh(self.created_at)
    }

    /// This memo with its text replaced at the time `now`.
    pub open spec fn updated(
        self,
        title: Seq<char>,
        content: Seq<char>,
        now: Timestamp,
    ) -> MemoView {
        MemoView { title, content, updated_at: now, ..self }
    }
}

impl Clone for Memo {
    fn clone(&self) -> (copy: Self)
        ensures
            copy@ == self@,
    {
        Memo {
            id: self.id.clone(),
            title: self.title.clone(),
            content: self.content.clone(),
            created_at: self.created_at,
            updated_at: self.updated_at,
            file_path: match &self.file_path {
                Some(p) => Some(p.clone()),
                None => None,
            },
        }
    }
}

impl Memo {
    /// A memo made now.
    pub fn new() -> (memo: Self)
        ensures
            memo@.is_fresh(),
    {
        Memo::new_at(local_now())
    }

    /// The memo that is made at the time `now`.
    pub fn new_at(now: Timestamp) -> (memo: Self)
        ensures
            memo@ == MemoView::fresh(now),
    {
        Memo {
            id: to_decimal(now.millis()),
            title: String::from_str("non title"),
            content: String::new(),
            created_at: now,
            updated_at: now,
            file_path: None,
        }
    }

    /// Replaces title and content, and notes the current time as the time
    /// of the last change.
    pub fn update_content(&mut self, title: String, content: String)
        ensures
            final(self)@ == old(self)@.updated(title@, content@, final(self)@.updated_at),
    {
        self.update_content_at(title, content, local_now());
    }

    /// Replaces title and content, and notes `now` as the time of the last
    /// change.
    pub fn update_content_at(&mut self, title: String, content: String, now: Timestamp)
        ensures
            final(self)@ == old(self)@.updated(title@, content@, now),
    {
        self.title = title;
        self.content = content;
        self.updated_at = now;
    }

    /// The time of the last change as the list shows it: year, month and
    /// day, then hour, minute and second, on the clock of the place where
    /// the change was made. `None` where the time cannot be written.
    pub fn display_date(&self) -> (text: Option<String>)
        ensures
            text.deep_view() == formatted_time(
                self.updated_at.secs as int,
                self.updated_at.nanos as int,
                self.updated_at.offset as int,
                date_pattern(),
            ),
    {
        format_time(&self.updated_at, "%Y年%m月%d日 %H:%M:%S")
    }
}

} // verus!
