use quick_memo::components::memo_list::{contains_text, MemoList};
use quick_memo::models::memo::Memo;
use quick_memo::models::timestamp::Timestamp;

fn memo(title: &str, content: &str) -> Memo {
    let mut memo = Memo::new_at(Timestamp { secs: 0, nanos: 0, offset: 0 });
    memo.title = title.to_string();
    memo.content = content.to_string();
    memo
}

#[test]
fn new_list_is_empty() {
    let list = MemoList::new();
    assert_eq!(list.memos.len(), 0);
    assert_eq!(list.selected_index, None);
    assert_eq!(list.search_query, "");
}

#[test]
fn text_contains_text() {
    assert!(contains_text("shopping list", "ping"));
    assert!(contains_text("shopping list", "shopping list"));
    assert!(contains_text("shopping list", "s"));
    assert!(contains_text("shopping list", "t"));
    assert!(contains_text("shopping list", ""));
    assert!(contains_text("", ""));
    assert!(!contains_text("", "a"));
    assert!(!contains_text("shopping list", "shopping list!"));
    assert!(!contains_text("shopping list", "lists"));
    assert!(!contains_text("aab", "abb"));
    assert!(contains_text("aaab", "aab"));
    assert!(contains_text("買い物リスト", "物リ"));
    assert!(!contains_text("買い物リスト", "物ト"));
}

#[test]
fn contains_agrees_with_std() {
    let words = ["", "a", "ab", "ba", "aba", "abab", "bab", "abc", "é", "aé"];
    for haystack in words {
        for needle in words {
            assert_eq!(contains_text(haystack, needle), haystack.contains(needle), "{:?} in {:?}", needle, haystack);
        }
    }
}

#[test]
fn empty_search_shows_every_memo() {
    let list = MemoList::new();
    assert!(list.shows(&memo("", "")));
    assert!(list.shows(&memo("Title", "content")));
}

#[test]
fn search_looks_at_title_and_content() {
    let mut list = MemoList::new();
    list.search_query = "milk".to_string();
    assert!(list.shows(&memo("Buy milk", "")));
    assert!(list.shows(&memo("Shopping", "eggs, milk, bread")));
    assert!(!list.shows(&memo("Shopping", "eggs, bread")));
    assert!(!list.shows(&memo("", "")));
}

#[test]
fn search_ignores_case() {
    let mut list = MemoList::new();
    list.search_query = "MiLk".to_string();
    assert!(list.shows(&memo("buy MILK", "")));
    assert!(list.shows(&memo("", "Milk")));
    list.search_query = "ÄPFEL".to_string();
    assert!(list.shows(&memo("äpfel kaufen", "")));
    list.search_query = "milch".to_string();
    assert!(!list.shows(&memo("äpfel kaufen", "MILK")));
}
