use edge_studio::clock::Timestamp;
use edge_studio::logging::{
    init_log_cache, log_at, log_debug, log_error, log_info, log_trace, log_warn, LogCache, LogLevel,
};

fn messages(cache: &LogCache) -> Vec<String> {
    cache.get_entries().into_iter().map(|entry| entry.message).collect()
}

#[test]
fn test_log_cache_basic_functionality() {
    let mut cache = LogCache::new(3);

    cache.add_entry(LogLevel::Info, "test", "First message");
    cache.add_entry(LogLevel::Warn, "test", "Second message");
    cache.add_entry(LogLevel::Error, "test", "Third message");

    assert_eq!(cache.len(), 3);

    let entries = cache.get_entries();
    assert_eq!(entries[0].message, "First message");
    assert_eq!(entries[1].message, "Second message");
    assert_eq!(entries[2].message, "Third message");
}

#[test]
fn test_log_cache_circular_buffer() {
    let mut cache = LogCache::new(2);

    cache.add_entry(LogLevel::Info, "test", "First message");
    cache.add_entry(LogLevel::Info, "test", "Second message");
    cache.add_entry(LogLevel::Info, "test", "Third message");

    assert_eq!(cache.len(), 2);

    let entries = cache.get_entries();
    assert_eq!(entries[0].message, "Second message");
    assert_eq!(entries[1].message, "Third message");
}

#[test]
fn test_log_cache_clear() {
    let mut cache = LogCache::new(5);

    cache.add_entry(LogLevel::Info, "test", "Message");
    assert_eq!(cache.len(), 1);

    cache.clear();
    assert_eq!(cache.len(), 0);
    assert!(cache.is_empty());
}

#[test]
fn test_formatted_string_output() {
    let mut cache = LogCache::new(5);

    cache.add_entry(LogLevel::Info, "test", "Test message");
    cache.add_entry(LogLevel::Error, "app", "Error message");

    let formatted = cache.to_formatted_string();

    assert!(formatted.contains("INFO"));
    assert!(formatted.contains("ERROR"));
    assert!(formatted.contains("Test message"));
    assert!(formatted.contains("Error message"));
    assert!(formatted.contains("[test]"));
    assert!(formatted.contains("[app]"));
}

#[test]
fn level_names_are_upper_case() {
    assert_eq!(LogLevel::Error.as_str(), "ERROR");
    assert_eq!(LogLevel::Warn.as_str(), "WARN");
    assert_eq!(LogLevel::Info.as_str(), "INFO");
    assert_eq!(LogLevel::Debug.as_str(), "DEBUG");
    assert_eq!(LogLevel::Trace.as_str(), "TRACE");
}

#[test]
fn pushes_beyond_capacity_keep_the_newest_in_order() {
    let mut cache = LogCache::new(2);
    cache.add_entry(LogLevel::Info, "t", "a");
    assert!(cache.len() <= 2);
    cache.add_entry(LogLevel::Info, "t", "b");
    assert!(cache.len() <= 2);
    cache.add_entry(LogLevel::Info, "t", "c");
    assert!(cache.len() <= 2);
    assert_eq!(messages(&cache), vec!["b".to_string(), "c".to_string()]);
}

#[test]
fn many_pushes_never_exceed_the_capacity() {
    let mut cache = LogCache::new(7);
    for i in 0..100 {
        cache.add_entry(LogLevel::Debug, "loop", &format!("m{}", i));
        assert!(cache.len() <= 7);
        assert_eq!(cache.len(), std::cmp::min(i + 1, 7));
    }
    let expected: Vec<String> = (93..100).map(|i| format!("m{}", i)).collect();
    assert_eq!(messages(&cache), expected);
}

#[test]
fn capacity_zero_never_holds_an_entry() {
    let mut cache = LogCache::new(0);
    assert_eq!(cache.max_entries(), 0);
    cache.add_entry(LogLevel::Info, "t", "a");
    assert_eq!(cache.len(), 0);
    assert!(cache.is_empty());
    cache.add_entry(LogLevel::Info, "t", "b");
    assert!(cache.get_entries().is_empty());
    assert_eq!(cache.to_formatted_string(), "");
}

#[test]
fn capacity_one_holds_the_last_entry() {
    let mut cache = LogCache::new(1);
    cache.add_entry(LogLevel::Info, "t", "a");
    cache.add_entry(LogLevel::Warn, "t", "b");
    let entries = cache.get_entries();
    assert_eq!(entries.len(), 1);
    assert_eq!(entries[0].message, "b");
    assert_eq!(entries[0].level, LogLevel::Warn);
}

#[test]
fn clear_then_snapshot_is_empty_for_any_state() {
    for capacity in [0usize, 1, 3] {
        for pushes in 0..5 {
            let mut cache = LogCache::new(capacity);
            for i in 0..pushes {
                cache.add_entry(LogLevel::Info, "t", &format!("{}", i));
            }
            cache.clear();
            assert!(cache.get_entries().is_empty());
            assert_eq!(cache.len(), 0);
            assert_eq!(cache.max_entries(), capacity);
        }
    }
}

#[test]
fn clear_leaves_room_for_new_entries() {
    let mut cache = LogCache::new(2);
    cache.add_entry(LogLevel::Info, "t", "a");
    cache.add_entry(LogLevel::Info, "t", "b");
    cache.clear();
    cache.add_entry(LogLevel::Info, "t", "c");
    assert_eq!(messages(&cache), vec!["c".to_string()]);
}

#[test]
fn snapshot_is_a_copy() {
    let mut cache = LogCache::new(3);
    cache.add_entry(LogLevel::Info, "t", "a");
    let mut copy = cache.get_entries();
    copy[0].message.push_str(" changed");
    copy.clear();
    assert_eq!(messages(&cache), vec!["a".to_string()]);
}

#[test]
fn entry_keeps_what_was_given() {
    let mut cache = LogCache::new(3);
    let stamp = Timestamp::new(1_700_000_000, 123_456_789).unwrap();
    cache.add_entry_at(stamp, LogLevel::Trace, "target", "message");
    let entries = cache.get_entries();
    assert_eq!(entries.len(), 1);
    assert_eq!(entries[0].timestamp, stamp);
    assert_eq!(entries[0].timestamp.secs(), 1_700_000_000);
    assert_eq!(entries[0].timestamp.nanos(), 123_456_789);
    assert_eq!(entries[0].level, LogLevel::Trace);
    assert_eq!(entries[0].target, "target");
    assert_eq!(entries[0].message, "message");
}

#[test]
fn rendered_line_has_the_documented_form() {
    let mut cache = LogCache::new(5);
    let stamp = Timestamp::new(947_638_923, 4_000_000).unwrap();
    cache.add_entry_at(stamp, LogLevel::Info, "test", "Test message");
    assert_eq!(
        cache.to_formatted_string(),
        "[2000-01-12 01:02:03.004 UTC] INFO [test] Test message\n"
    );
}

#[test]
fn rendered_text_is_oldest_first() {
    let mut cache = LogCache::new(2);
    let first = Timestamp::new(0, 0).unwrap();
    let second = Timestamp::new(1, 999_000_000).unwrap();
    let third = Timestamp::new(86_400, 500_000).unwrap();
    cache.add_entry_at(first, LogLevel::Error, "a", "one");
    cache.add_entry_at(second, LogLevel::Warn, "b", "two");
    cache.add_entry_at(third, LogLevel::Debug, "c", "three");
    assert_eq!(
        cache.to_formatted_string(),
        "[1970-01-01 00:00:01.999 UTC] WARN [b] two\n[1970-01-02 00:00:00.000 UTC] DEBUG [c] three\n"
    );
}

#[test]
fn rendered_line_count_equals_len() {
    for capacity in [0usize, 1, 4] {
        let mut cache = LogCache::new(capacity);
        for i in 0..6 {
            let text = cache.to_formatted_string();
            assert_eq!(text.lines().count(), cache.len());
            assert_eq!(text.matches('\n').count(), cache.len());
            cache.add_entry(LogLevel::Info, "t", &format!("message {}", i));
        }
        let text = cache.to_formatted_string();
        assert_eq!(text.lines().count(), cache.len());
    }
}

#[test]
fn line_breaks_in_a_message_are_escaped() {
    let mut cache = LogCache::new(2);
    let stamp = Timestamp::new(0, 0).unwrap();
    cache.add_entry_at(stamp, LogLevel::Info, "t", "a\nb");
    assert_eq!(cache.to_formatted_string(), "[1970-01-01 00:00:00.000 UTC] INFO [t] a\\nb\n");
    assert_eq!(cache.len(), 1);
    assert_eq!(cache.to_formatted_string().lines().count(), 1);
    assert_eq!(cache.get_entries()[0].message, "a\nb");
}

#[test]
fn backslashes_and_carriage_returns_are_escaped() {
    let mut cache = LogCache::new(2);
    let stamp = Timestamp::new(0, 0).unwrap();
    cache.add_entry_at(stamp, LogLevel::Warn, "x\ry", "c:\\dir\\n\r\n");
    assert_eq!(
        cache.to_formatted_string(),
        "[1970-01-01 00:00:00.000 UTC] WARN [x\\ry] c:\\\\dir\\\\n\\r\\n\n"
    );
    assert_eq!(cache.get_entries()[0].to_line(), cache.to_formatted_string());
}

#[test]
fn rendered_line_count_equals_len_for_any_text() {
    let texts = ["", "\n", "\n\n\n", "a\nb\nc", "\r\n", "\\", "\\n", "plain", "\u{2028}x"];
    let mut cache = LogCache::new(5);
    for (i, text) in texts.iter().enumerate() {
        cache.add_entry(LogLevel::Info, text, text);
        let rendered = cache.to_formatted_string();
        assert_eq!(rendered.matches('\n').count(), cache.len());
        assert_eq!(rendered.split_terminator('\n').count(), cache.len());
        assert_eq!(cache.len(), std::cmp::min(i + 1, 5));
        assert!(!rendered.contains('\r'));
    }
}

#[test]
fn logging_keeps_the_entries_held_before_as_they_were() {
    let mut cache = LogCache::new(3);
    let old = Timestamp::new(1, 2).unwrap();
    cache.add_entry_at(old, LogLevel::Info, "t", "first");
    cache.add_entry_at(Timestamp::new(3, 4).unwrap(), LogLevel::Info, "t", "second");
    log_error(&mut cache, "u", "third");
    let entries = cache.get_entries();
    assert_eq!(entries.len(), 3);
    assert_eq!(entries[0].timestamp, old);
    assert_eq!(entries[0].message, "first");
    assert_eq!(entries[1].timestamp, Timestamp::new(3, 4).unwrap());
    assert_eq!(entries[2].level, LogLevel::Error);
    assert_eq!(entries[2].target, "u");
    assert_eq!(entries[2].message, "third");
    log_info(&mut cache, "v", "fourth");
    let entries = cache.get_entries();
    assert_eq!(entries.len(), 3);
    assert_eq!(entries[0].timestamp, Timestamp::new(3, 4).unwrap());
    assert_eq!(entries[0].message, "second");
    assert_eq!(entries[1].message, "third");
    assert_eq!(entries[2].message, "fourth");
}

#[test]
fn current_time_is_stamped_on_new_entries() {
    let before = Timestamp::now();
    let mut cache = LogCache::new(1);
    cache.add_entry(LogLevel::Info, "t", "m");
    let after = Timestamp::now();
    let stamp = cache.get_entries()[0].timestamp;
    assert!(before.secs() <= stamp.secs());
    assert!(stamp.secs() <= after.secs());
    assert!(stamp.secs() > 1_600_000_000);
}

#[test]
fn log_helpers_set_the_level() {
    let mut cache = init_log_cache(10);
    assert_eq!(cache.max_entries(), 10);
    assert!(cache.is_empty());
    log_error(&mut cache, "a", "1");
    log_warn(&mut cache, "b", "2");
    log_info(&mut cache, "c", "3");
    log_debug(&mut cache, "d", "4");
    log_trace(&mut cache, "e", "5");
    log_at(&mut cache, LogLevel::Warn, "f", "6");
    let entries = cache.get_entries();
    let seen: Vec<(LogLevel, &str, &str)> =
        entries.iter().map(|e| (e.level, e.target.as_str(), e.message.as_str())).collect();
    assert_eq!(
        seen,
        vec![
            (LogLevel::Error, "a", "1"),
            (LogLevel::Warn, "b", "2"),
            (LogLevel::Info, "c", "3"),
            (LogLevel::Debug, "d", "4"),
            (LogLevel::Trace, "e", "5"),
            (LogLevel::Warn, "f", "6"),
        ]
    );
}
