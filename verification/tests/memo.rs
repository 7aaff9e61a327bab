use quick_memo::models::memo::Memo;
use quick_memo::models::timestamp::Timestamp;

fn at(secs: i64, nanos: u32, offset: i32) -> Timestamp {
    Timestamp { secs, nanos, offset }
}

#[test]
fn new_memo_is_named_after_its_millisecond() {
    let memo = Memo::new_at(at(1_700_000_000, 123_456_789, 32_400));
    assert_eq!(memo.id, "1700000000123");
    assert_eq!(memo.title, "non title");
    assert_eq!(memo.content, "");
    assert_eq!(memo.created_at, at(1_700_000_000, 123_456_789, 32_400));
    assert_eq!(memo.updated_at, memo.created_at);
    assert_eq!(memo.file_path, None);
}

#[test]
fn id_before_the_epoch() {
    assert_eq!(Memo::new_at(at(-1, 999_000_000, 0)).id, "-1");
    assert_eq!(Memo::new_at(at(-2, 500_000_000, 0)).id, "-1500");
    assert_eq!(Memo::new_at(at(0, 0, 0)).id, "0");
}

#[test]
fn id_agrees_with_chrono() {
    for (secs, nanos) in [(0i64, 0u32), (1_700_000_000, 123_456_789), (-5, 1_000_000), (59, 1_500_000_000)] {
        let time = chrono::DateTime::from_timestamp(secs, nanos).unwrap();
        assert_eq!(Memo::new_at(at(secs, nanos, 0)).id, time.timestamp_millis().to_string());
        assert_eq!(at(secs, nanos, 0).millis(), time.timestamp_millis() as i128);
    }
}

#[test]
fn millis_of_the_far_ends() {
    assert_eq!(at(i64::MAX, 999_999_999, 0).millis(), (i64::MAX as i128) * 1000 + 999);
    assert_eq!(at(i64::MIN, 0, 0).millis(), (i64::MIN as i128) * 1000);
}

#[test]
fn memo_made_now() {
    let before = chrono::Local::now();
    let memo = Memo::new();
    let after = chrono::Local::now();
    assert_eq!(memo.title, "non title");
    assert_eq!(memo.content, "");
    assert_eq!(memo.file_path, None);
    assert_eq!(memo.created_at, memo.updated_at);
    assert_eq!(memo.id, memo.created_at.millis().to_string());
    assert!(before.timestamp() <= memo.created_at.secs);
    assert!(memo.created_at.secs <= after.timestamp());
    assert_eq!(memo.created_at.offset, before.offset().local_minus_utc());
    assert!(memo.created_at.nanos < 2_000_000_000);
}

#[test]
fn update_replaces_the_text_and_the_time_of_change() {
    let mut memo = Memo::new_at(at(100, 0, 0));
    memo.file_path = Some("/tmp/100000.json".to_string());
    memo.update_content_at("T".to_string(), "C".to_string(), at(200, 5, 3600));
    assert_eq!(memo.id, "100000");
    assert_eq!(memo.title, "T");
    assert_eq!(memo.content, "C");
    assert_eq!(memo.created_at, at(100, 0, 0));
    assert_eq!(memo.updated_at, at(200, 5, 3600));
    assert_eq!(memo.file_path, Some("/tmp/100000.json".to_string()));
}

#[test]
fn update_by_the_clock() {
    let mut memo = Memo::new_at(at(100, 0, 0));
    let before = chrono::Local::now();
    memo.update_content("T".to_string(), "C".to_string());
    assert_eq!(memo.id, "100000");
    assert_eq!(memo.title, "T");
    assert_eq!(memo.content, "C");
    assert_eq!(memo.created_at, at(100, 0, 0));
    assert_eq!(memo.file_path, None);
    assert!(memo.updated_at.secs >= before.timestamp());
}

#[test]
fn clone_keeps_everything() {
    let mut memo = Memo::new_at(at(100, 7, -60));
    memo.title = "T".to_string();
    memo.content = "C".to_string();
    memo.file_path = Some("p".to_string());
    let copy = memo.clone();
    assert_eq!(copy.id, memo.id);
    assert_eq!(copy.title, "T");
    assert_eq!(copy.content, "C");
    assert_eq!(copy.created_at, memo.created_at);
    assert_eq!(copy.updated_at, memo.updated_at);
    assert_eq!(copy.file_path, Some("p".to_string()));
}

#[test]
fn display_date_in_the_offset_of_the_memo() {
    // 2024-01-02 03:04:05 UTC
    let mut memo = Memo::new_at(at(1_704_164_645, 0, 0));
    assert_eq!(memo.display_date(), Some("2024年01月02日 03:04:05".to_string()));
    memo.updated_at = at(1_704_164_645, 999_999_999, 9 * 3600);
    assert_eq!(memo.display_date(), Some("2024年01月02日 12:04:05".to_string()));
    memo.updated_at = at(1_704_164_645, 0, -4 * 3600);
    assert_eq!(memo.display_date(), Some("2024年01月01日 23:04:05".to_string()));
}

#[test]
fn display_date_agrees_with_chrono() {
    let now = chrono::Local::now();
    let mut memo = Memo::new_at(at(0, 0, 0));
    memo.updated_at = at(now.timestamp(), now.timestamp_subsec_nanos(), now.offset().local_minus_utc());
    assert_eq!(memo.display_date(), Some(now.format("%Y年%m月%d日 %H:%M:%S").to_string()));
}

#[test]
fn display_date_of_a_time_out_of_range() {
    let mut memo = Memo::new_at(at(0, 0, 0));
    memo.updated_at = at(i64::MAX, 0, 0);
    assert_eq!(memo.display_date(), None);
    memo.updated_at = at(0, 0, 86_400);
    assert_eq!(memo.display_date(), None);
    memo.updated_at = at(0, 2_000_000_000, 0);
    assert_eq!(memo.display_date(), None);
}

#[test]
fn later_and_same_instant() {
    assert!(at(2, 0, 0).later_than(&at(1, 999, 0)));
    assert!(at(1, 5, 0).later_than(&at(1, 4, 0)));
    assert!(!at(1, 4, 0).later_than(&at(1, 4, 3600)));
    assert!(!at(1, 4, 0).later_than(&at(1, 5, 0)));
    assert!(!at(-3, 0, 0).later_than(&at(-2, 0, 0)));
    assert!(at(1, 4, 0).same_instant(&at(1, 4, 3600)));
    assert!(!at(1, 4, 0).same_instant(&at(1, 5, 0)));
    assert!(!at(2, 4, 0).same_instant(&at(1, 4, 0)));
}
