use oracle::log::{Kind, Log, LOG_CAPACITY};
use oracle::stream::{log_stream_step, StreamAction, StreamEvent};
use oracle::time::Timestamp;

#[test]
fn new_log_is_empty() {
    let log = Log::new();
    assert_eq!(log.len(), 0);
    assert!(log.snapshot().is_empty());
}

#[test]
fn log_returns_the_entry_it_appended() {
    let mut log = Log::new();
    let entry = log.log(Kind::Error, "Device nas is down", Timestamp::new(5, 6));
    assert_eq!(entry.kind, Kind::Error);
    assert_eq!(entry.msg, "Device nas is down");
    assert_eq!(entry.time, Timestamp::new(5, 6));
    let note = log.note("Server started up", Timestamp::new(7, 0));
    assert_eq!(note.kind, Kind::Note);
    assert_eq!(note.msg, "Server started up");
    let all = log.snapshot();
    assert_eq!(all.len(), 2);
    assert_eq!(all[0].msg, "Device nas is down");
    assert_eq!(all[1].msg, "Server started up");
    assert_eq!(all[1].kind, Kind::Note);
}

#[test]
fn log_keeps_the_last_hundred_entries() {
    assert_eq!(LOG_CAPACITY, 100);
    let mut log = Log::new();
    for i in 0..100u64 {
        log.note(&format!("entry {}", i), Timestamp::new(i, 0));
        assert_eq!(log.len(), i as usize + 1);
    }
    assert_eq!(log.snapshot()[0].msg, "entry 0");
    for i in 100..250u64 {
        log.note(&format!("entry {}", i), Timestamp::new(i, 0));
        assert_eq!(log.len(), 100);
        let all = log.snapshot();
        assert_eq!(all[0].msg, format!("entry {}", i - 99));
        assert_eq!(all[99].msg, format!("entry {}", i));
    }
}

#[test]
fn entry_clone_keeps_every_field() {
    let mut log = Log::new();
    let entry = log.log(Kind::Note, "text", Timestamp::new(1, 2));
    let copy = entry.clone();
    assert_eq!(copy.kind, Kind::Note);
    assert_eq!(copy.msg, "text");
    assert_eq!(copy.time, Timestamp::new(1, 2));
}

#[test]
fn log_stream_sends_every_entry_and_ends_on_close_or_lag() {
    let mut log = Log::new();
    let entry = log.note("hello", Timestamp::new(1, 0));
    match log_stream_step(StreamEvent::Item(entry)) {
        StreamAction::Send(sent) => assert_eq!(sent.msg, "hello"),
        other => panic!("unexpected {:?}", other),
    }
    assert!(matches!(log_stream_step(StreamEvent::Frame { close: false }), StreamAction::Skip));
    assert!(matches!(log_stream_step(StreamEvent::Frame { close: true }), StreamAction::End));
    assert!(matches!(log_stream_step(StreamEvent::Hangup), StreamAction::End));
    assert!(matches!(log_stream_step(StreamEvent::Lagged), StreamAction::End));
}
