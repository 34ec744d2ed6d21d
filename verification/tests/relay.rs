use terminal_manager::relay::{event_topic, RelayTask, RELAY_BUFFER_SIZE};

#[test]
fn topic_is_prefix_and_session_id() {
    assert_eq!(event_topic("abc"), "terminal-data-abc");
    assert_eq!(event_topic(""), "terminal-data-");
    assert_eq!(event_topic("tab 1/\u{e9}"), "terminal-data-tab 1/\u{e9}");
}

#[test]
fn relay_reads_eight_kibibytes_at_a_time() {
    assert_eq!(RELAY_BUFFER_SIZE, 8192);
}

#[test]
fn new_relay_runs_and_knows_its_topic() {
    let task = RelayTask::new("main");
    assert_eq!(task.topic(), "terminal-data-main");
    assert!(!task.is_finished());
}

#[test]
fn relay_publishes_each_chunk_as_text() {
    let mut task = RelayTask::new("main");
    assert_eq!(task.on_read(Some(b"hello")), Some("hello".to_string()));
    assert_eq!(task.on_read(Some(b" wor")), Some(" wor".to_string()));
    assert_eq!(task.on_read(Some("ld \u{20ac}".as_bytes())), Some("ld \u{20ac}".to_string()));
    assert!(!task.is_finished());
    assert_eq!(task.topic(), "terminal-data-main");
}

#[test]
fn relay_replaces_bytes_that_are_not_utf8() {
    let mut task = RelayTask::new("main");
    assert_eq!(task.on_read(Some(&[0xff])), Some("\u{fffd}".to_string()));
    assert_eq!(task.on_read(Some(&[b'a', 0xc3, b'b'])), Some("a\u{fffd}b".to_string()));
    assert_eq!(task.on_read(Some(&[0xe2, 0x82])), Some("\u{fffd}".to_string()));
    assert!(!task.is_finished());
}

#[test]
fn relay_ends_at_end_of_stream() {
    let mut task = RelayTask::new("main");
    assert_eq!(task.on_read(Some(b"last words")), Some("last words".to_string()));
    assert_eq!(task.on_read(Some(b"")), None);
    assert!(task.is_finished());
}

#[test]
fn relay_ends_at_a_failed_read() {
    let mut task = RelayTask::new("main");
    assert_eq!(task.on_read(None), None);
    assert!(task.is_finished());
}

#[test]
fn relay_publishes_nothing_after_the_end() {
    let mut task = RelayTask::new("main");
    assert_eq!(task.on_read(Some(b"")), None);
    assert_eq!(task.on_read(Some(b"late")), None);
    assert_eq!(task.on_read(None), None);
    assert_eq!(task.on_read(Some(b"later")), None);
    assert!(task.is_finished());
    assert_eq!(task.topic(), "terminal-data-main");
}

#[test]
fn relay_run_over_a_stream_of_reads() {
    let reads: Vec<Option<&[u8]>> = vec![Some(b"a"), Some(b"bc"), Some(b""), Some(b"d"), None, Some(b"e")];
    let mut task = RelayTask::new("s");
    let mut published = Vec::new();
    for read in reads {
        if let Some(text) = task.on_read(read) {
            published.push(text);
        }
    }
    assert_eq!(published, vec!["a".to_string(), "bc".to_string()]);
}
