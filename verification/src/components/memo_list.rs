//! The list pane: the stored memos, the one that was picked, and the words
//! that the list is searched for.

use crate::models::memo::{Memo, MemoView};
use crate::text::to_chars;
use vstd::prelude::*;

verus! {

/// `s` in lower case, as `str::to_lowercase` of std writes it.
pub uninterp spec fn lowercase(s: Seq<char>) -> Seq<char>;

/// `str::to_lowercase` of std: the text with each char replaced by its
/// lower case form in Unicode. The contract only names the result: the same
/// text gives the same text.
#[verifier::external_body]
fn to_lowercase(s: &str) -> (lower: String)
    ensures
        lower@ == lowercase(s@),
{
    s.to_lowercase()
}

/// `needle` stands in `haystack` at the index `at`.
pub open spec fn occurs_at(haystack: Seq<char>, needle: Seq<char>, at: int) -> bool {
    0 <= at && at + needle.len() <= haystack.len() && haystack.subrange(
        at,
        at + needle.len(),
    ) == needle
}

/// `needle` stands somewhere in `haystack`.
pub open spec fn occurs_in(haystack: Seq<char>, needle: Seq<char>) -> bool {
    exists|at: int| occurs_at(haystack, needle, at)
}

/// A memo with this title and content is shown when the list is searched
/// for `query`: always for an empty query, else where the query stands in
/// the title or in the content, upper and lower case counting as the same.
pub open spec fn shown_for(query: Seq<char>, title: Seq<char>, content: Seq<char>) -> bool {
    query.len() == 0 || occurs_in(lowercase(title), lowercase(query)) || occurs_in(
        lowercase(content),
        lowercase(query),
    )
}

fn stands_at(haystack: &Vec<char>, needle: &Vec<char>, at: usize) -> (r: bool)
    requires
        at + needle.len() <= haystack.len(),
    ensures
        r == occurs_at(haystack@, needle@, at as int),
{
    let mut i: usize = 0;
    while i < needle.len()
        invariant
            i <= needle.len(),
            at + needle.len() <= haystack.len(),
            forall|k: int| 0 <= k < i ==> haystack@[at + k] == needle@[k],
        decreases needle.len() - i,
    {
        if haystack[at + i] != needle[i] {
            proof {
                assert(haystack@.subrange(at as int, at + needle.len())[i as int] == haystack@[at
                    + i]);
            }
            return false;
        }
        i = i + 1;
    }
    proof {
        assert(haystack@.subrange(at as int, at + needle.len()) =~= needle@);
    }
    true
}

/// Whether `needle` stands somewhere in `haystack`.
pub fn contains_text(haystack: &str, needle: &str) -> (r: bool)
    ensures
        r == occurs_in(haystack@, needle@),
{
    let hay = to_chars(haystack);
    let ndl = to_chars(needle);
    if ndl.len() > hay.len() {
        return false;
    }
    let last: usize = hay.len() - ndl.len();
    let mut at: usize = 0;
    while at < last
        invariant
            at <= last,
            last == hay.len() - ndl.len(),
            hay@ == haystack@,
            ndl@ == needle@,
            forall|k: int| 0 <= k < at ==> !occurs_at(haystack@, needle@, k),
        decreases last - at,
    {
        if stands_at(&hay, &ndl, at) {
            return true;
        }
        at = at + 1;
    }
    stands_at(&hay, &ndl, last)
}

/// The list pane.
pub struct MemoList {
    /// The stored memos, newest first.
    pub memos: Vec<Memo>,
    /// The index of the memo that was picked, until it is opened.
    pub selected_index: Option<usize>,
    /// The words that the list is searched for.
    pub search_query: String,
}

/// The list pane as a mathematical value.
pub struct MemoListView {
    pub memos: Seq<MemoView>,
    pub selected_index: Option<usize>,
    pub search_query: Seq<char>,
}

impl View for MemoList {
    type V = MemoListView;

    open spec fn view(&self) -> MemoListView {
        MemoListView {
            memos: self.memos.deep_view(),
            selected_index: self.selected_index,
            search_query: self.search_query@,
        }
    }
}

impl MemoList {
    /// An empty list with nothing picked and nothing searched for.
    pub fn new() -> (list: Self)
        ensures
            list@ == (MemoListView {
                memos: Seq::empty(),
                selected_index: None,
                search_query: Seq::empty(),
            }),
    {
        let list = MemoList {
            memos: Vec::new(),
            selected_index: None,
            search_query: String::new(),
        };
        proof {
            assert(list.memos.deep_view() =~= Seq::<MemoView>::empty());
        }
        list
    }

    /// Whether the list shows `memo` under the current search.
    pub fn shows(&self, memo: &Memo) -> (shown: bool)
        ensures
            shown == shown_for(self@.search_query, memo@.title, memo@.content),
    {
        if self.search_query.as_str().is_empty() {
            return true;
        }
        let query = to_lowercase(self.search_query.as_str());
        let title = to_lowercase(memo.title.as_str());
        if contains_text(title.as_str(), query.as_str()) {
            return true;
        }
        let content = to_lowercase(memo.content.as_str());
        contains_text(content.as_str(), query.as_str())
    }
}

} // verus!
