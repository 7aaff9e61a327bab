use quick_memo::storage::auto_save::{save_is_due, AutoSave};
use std::path::Path;
use std::time::{Duration, Instant};

const SECOND: u128 = 1_000_000_000;

#[test]
fn scratch_file_lies_below_the_home_directory() {
    let auto_save = AutoSave::in_home("/home/alice", 2);
    let expected = Path::new("/home/alice").join(".quick-memo").join("autosave.txt");
    assert_eq!(auto_save.file_path(), expected.to_str().unwrap());
    assert_eq!(auto_save.save_interval_secs(), 2);
    assert!(!auto_save.is_dirty());
}

#[test]
fn scratch_file_of_the_user() {
    let home = dirs::home_dir().and_then(|h| h.to_str().map(|s| s.to_string()));
    match (AutoSave::new(3), home) {
        (Some(auto_save), Some(home)) => {
            assert_eq!(auto_save.file_path(), AutoSave::in_home(&home, 3).file_path());
            assert_eq!(auto_save.save_interval_secs(), 3);
            assert!(!auto_save.is_dirty());
        }
        (None, None) => {}
        _ => panic!("the scratch file and the home directory disagree"),
    }
}

#[test]
fn due_needs_changes_and_the_interval() {
    assert!(save_is_due(true, 2 * SECOND, 2));
    assert!(save_is_due(true, 2 * SECOND + 1, 2));
    assert!(!save_is_due(true, 2 * SECOND - 1, 2));
    assert!(!save_is_due(false, 2 * SECOND, 2));
    assert!(!save_is_due(false, u128::MAX, 0));
    assert!(save_is_due(true, 0, 0));
    assert!(!save_is_due(true, 0, 1));
    assert!(save_is_due(true, (u64::MAX as u128) * SECOND, u64::MAX));
    assert!(!save_is_due(true, (u64::MAX as u128) * SECOND - 1, u64::MAX));
}

#[test]
fn nothing_is_written_without_changes() {
    let auto_save = AutoSave::in_home("/home/alice", 2);
    assert!(auto_save.check_and_save_after("text", 0).is_none());
    assert!(auto_save.check_and_save_after("text", 2 * SECOND).is_none());
    assert!(auto_save.check_and_save_after("text", u128::MAX).is_none());
    assert!(auto_save.check_and_save("text").is_none());
    assert!(!auto_save.is_dirty());
    let at_once = AutoSave::in_home("/home/alice", 0);
    assert!(at_once.check_and_save("text").is_none());
}

#[test]
fn changes_are_written_once_the_interval_has_passed() {
    let mut auto_save = AutoSave::in_home("/home/alice", 2);
    auto_save.mark_dirty();
    assert!(auto_save.is_dirty());
    assert!(auto_save.check_and_save_after("text", 0).is_none());
    assert!(auto_save.check_and_save_after("text", 2 * SECOND - 1).is_none());
    let write = auto_save.check_and_save_after("text", 2 * SECOND).unwrap();
    assert_eq!(write.path, auto_save.file_path());
    assert_eq!(write.content, "text");
    assert!(auto_save.check_and_save_after("text", 3 * SECOND).is_some());
    // Only `finish_save` notes the write.
    assert!(auto_save.is_dirty());
}

#[test]
fn by_the_clock() {
    let mut never = AutoSave::in_home("/home/alice", u64::MAX);
    never.mark_dirty();
    assert!(never.check_and_save("text").is_none());
    let mut at_once = AutoSave::in_home("/home/alice", 0);
    at_once.mark_dirty();
    let write = at_once.check_and_save("text").unwrap();
    assert_eq!(write.path, at_once.file_path());
    assert_eq!(write.content, "text");
}

#[test]
fn after_a_write_nothing_is_left_to_write() {
    let mut auto_save = AutoSave::in_home("/home/alice", 0);
    auto_save.mark_dirty();
    assert!(auto_save.check_and_save("text").is_some());
    auto_save.finish_save(true);
    assert!(!auto_save.is_dirty());
    assert!(auto_save.check_and_save("text").is_none());
    assert_eq!(auto_save.save_interval_secs(), 0);
    assert_eq!(auto_save.file_path(), AutoSave::in_home("/home/alice", 0).file_path());
    auto_save.mark_dirty();
    assert!(auto_save.check_and_save("more").is_some());
}

#[test]
fn a_failed_write_comes_up_again() {
    let mut auto_save = AutoSave::in_home("/home/alice", 0);
    auto_save.mark_dirty();
    assert!(auto_save.check_and_save("text").is_some());
    auto_save.finish_save(false);
    assert!(auto_save.is_dirty());
    assert!(auto_save.check_and_save("text").is_some());
    let mut clean = AutoSave::in_home("/home/alice", 0);
    clean.finish_save(false);
    assert!(!clean.is_dirty());
}

#[test]
fn forced_save_writes_in_any_state() {
    let mut auto_save = AutoSave::in_home("/home/alice", u64::MAX);
    let write = auto_save.save("Title\nBody");
    assert_eq!(write.path, auto_save.file_path());
    assert_eq!(write.content, "Title\nBody");
    assert!(!auto_save.is_dirty());
    auto_save.mark_dirty();
    let write = auto_save.save("");
    assert_eq!(write.path, auto_save.file_path());
    assert_eq!(write.content, "");
    assert!(auto_save.is_dirty());
}

#[test]
fn backup_for_a_known_and_an_unknown_home() {
    assert!(AutoSave::for_home(None, 2).is_none());
    let auto_save = AutoSave::for_home(Some("/home/alice".to_string()), 7).unwrap();
    let expected = Path::new("/home/alice").join(".quick-memo").join("autosave.txt");
    assert_eq!(auto_save.file_path(), expected.to_str().unwrap());
    assert_eq!(auto_save.save_interval_secs(), 7);
    assert!(!auto_save.is_dirty());
}

fn ten_seconds_ago() -> Instant {
    Instant::now()
        .checked_sub(Duration::from_secs(10))
        .expect("a clock that has run for ten seconds")
}

#[test]
fn backup_starts_at_the_given_reading() {
    let start = ten_seconds_ago();
    let auto_save = AutoSave::in_home_at("/home/alice", 5, start);
    assert_eq!(auto_save.last_save(), start);
    assert_eq!(auto_save.save_interval_secs(), 5);
    assert!(!auto_save.is_dirty());
    assert_eq!(auto_save.file_path(), AutoSave::in_home("/home/alice", 5).file_path());
}

#[test]
fn backup_starts_by_the_clock() {
    let before = Instant::now();
    let auto_save = AutoSave::in_home("/home/alice", 5);
    let after = Instant::now();
    assert!(before <= auto_save.last_save());
    assert!(auto_save.last_save() <= after);
}

#[test]
fn a_write_resets_the_timer() {
    let start = ten_seconds_ago();
    let mut auto_save = AutoSave::in_home_at("/home/alice", 5, start);
    auto_save.mark_dirty();
    // Ten seconds have passed of an interval of five: a write is due.
    assert!(auto_save.check_and_save("text").is_some());
    let now = Instant::now();
    auto_save.finish_save_at(true, now);
    assert_eq!(auto_save.last_save(), now);
    assert!(!auto_save.is_dirty());
    assert_eq!(auto_save.save_interval_secs(), 5);
    assert_eq!(auto_save.file_path(), AutoSave::in_home("/home/alice", 5).file_path());
    // The next change has to wait for the interval again.
    auto_save.mark_dirty();
    assert!(auto_save.check_and_save("more").is_none());
}

#[test]
fn a_failed_write_leaves_the_timer() {
    let start = ten_seconds_ago();
    let mut auto_save = AutoSave::in_home_at("/home/alice", 5, start);
    auto_save.mark_dirty();
    auto_save.finish_save_at(false, Instant::now());
    assert_eq!(auto_save.last_save(), start);
    assert!(auto_save.is_dirty());
    assert!(auto_save.check_and_save("text").is_some());
}

#[test]
fn a_forced_save_that_was_made_resets_the_timer() {
    let start = ten_seconds_ago();
    let mut auto_save = AutoSave::in_home_at("/home/alice", 5, start);
    auto_save.mark_dirty();
    let write = auto_save.save("text");
    assert_eq!(write.content, "text");
    let before = Instant::now();
    auto_save.finish_save(true);
    assert!(before <= auto_save.last_save());
    assert!(auto_save.last_save() <= Instant::now());
    assert!(!auto_save.is_dirty());
    auto_save.mark_dirty();
    assert!(auto_save.check_and_save("more").is_none());
}

#[test]
fn a_write_is_due_from_the_interval_on() {
    let mut early = AutoSave::in_home_at("/home/alice", 3600, ten_seconds_ago());
    early.mark_dirty();
    assert!(early.check_and_save("text").is_none());
    let mut late = AutoSave::in_home_at("/home/alice", 10, ten_seconds_ago());
    late.mark_dirty();
    assert!(late.check_and_save("text").is_some());
}
