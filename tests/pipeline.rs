use ez_log::buffer::{buffer_log, write_all_and_flush, ThreadBuffer, FLUSH_THRESHOLD};
use ez_log::channel::log_channel;
use ez_log::config::{init_logging, LogConfig, DEFAULT_LOG_FILE};
use ez_log::record::{LogArg, LogEntry, LogLevel, LogMessage};
use ez_log::text::{fill_template, push_decimal, push_signed};
use ez_log::writer::{WriteAction, WriterHealth, MAX_WRITE_ATTEMPTS};

fn eager(text: &'static str, timestamp: u64) -> LogEntry {
    LogEntry { level: LogLevel::Info, message: LogMessage::StaticStr(text), timestamp }
}

#[test]
fn level_names() {
    assert_eq!(LogLevel::Info.name(), "Info");
    assert_eq!(LogLevel::Warning.name(), "Warning");
    assert_eq!(LogLevel::Error.name(), "Error");
    assert_eq!(LogLevel::Debug.name(), "Debug");
}

#[test]
fn decimal_text() {
    let mut s = String::new();
    push_decimal(&mut s, 0);
    assert_eq!(s, "0");
    let mut s = String::from("n=");
    push_decimal(&mut s, 1234567890);
    assert_eq!(s, "n=1234567890");
    let mut s = String::new();
    push_decimal(&mut s, u64::MAX);
    assert_eq!(s, "18446744073709551615");
}

#[test]
fn signed_text() {
    let mut s = String::new();
    push_signed(&mut s, -42);
    assert_eq!(s, "-42");
    let mut s = String::new();
    push_signed(&mut s, i64::MIN);
    assert_eq!(s, "-9223372036854775808");
    let mut s = String::new();
    push_signed(&mut s, 7);
    assert_eq!(s, "7");
}

#[test]
fn arg_texts() {
    assert_eq!(LogArg::Text(String::from("Alice")).to_text(), "Alice");
    assert_eq!(LogArg::Int(-3).to_text(), "-3");
    assert_eq!(LogArg::UInt(30).to_text(), "30");
}

#[test]
fn template_fills_in_order() {
    let args = vec![String::from("Alice"), String::from("3")];
    assert_eq!(fill_template("User {} login attempts: {}", &args), "User Alice login attempts: 3");
}

#[test]
fn template_edges() {
    assert_eq!(fill_template("", &vec![String::from("x")]), "");
    assert_eq!(fill_template("no places", &vec![String::from("x")]), "no places");
    assert_eq!(fill_template("{} and {}", &vec![String::from("one")]), "one and {}");
    assert_eq!(fill_template("{}{}", &vec![String::from("a"), String::from("b")]), "ab");
    assert_eq!(fill_template("{{}", &vec![String::from("x")]), "{x");
    assert_eq!(fill_template("{ }", &vec![String::from("x")]), "{ }");
    assert_eq!(fill_template("Temp: {}°C", &vec![String::from("25.50")]), "Temp: 25.50°C");
}

#[test]
fn static_line_has_one_bracket_pair_per_field() {
    let line = eager("System initialized", 1700000000).format();
    assert_eq!(line, "[1700000000][Info] System initialized");
}

#[test]
fn deferred_line_renders_template() {
    let entry = LogEntry {
        level: LogLevel::Warning,
        message: LogMessage::LazyFormat {
            template: "User {} login attempts: {}",
            args: vec![LogArg::Text(String::from("Alice")), LogArg::Int(3)],
        },
        timestamp: 5,
    };
    assert_eq!(entry.format(), "[5][Warning] User Alice login attempts: 3");
}

#[test]
fn deferred_message_keeps_captured_values() {
    let mut count: i64 = 1;
    let message = LogMessage::LazyFormat { template: "count = {}", args: vec![LogArg::Int(count)] };
    count = 2;
    assert_eq!(count, 2);
    assert_eq!(message.render(), "count = 1");
}

#[test]
fn buffer_drains_every_tenth_record() {
    let (mut tx, rx) = log_channel();
    let mut buffer = ThreadBuffer::new();
    let mut drains = 0;
    for i in 0..25u64 {
        buffer_log(&mut buffer, eager("tick", i), &mut tx);
        let arrived = rx.try_iter().count();
        if arrived > 0 {
            assert_eq!(arrived, FLUSH_THRESHOLD);
            assert_eq!((i + 1) % 10, 0);
            drains += 1;
        }
        assert_eq!(buffer.len(), ((i + 1) % 10) as usize);
    }
    assert_eq!(drains, 2);
}

#[test]
fn records_keep_their_order() {
    let (mut tx, rx) = log_channel();
    let mut buffer = ThreadBuffer::new();
    for i in 0..23u64 {
        buffer_log(&mut buffer, eager("step", i), &mut tx);
    }
    write_all_and_flush(&mut buffer, &mut tx);
    let stamps: Vec<u64> = rx.try_iter().map(|e| e.timestamp).collect();
    assert_eq!(stamps, (0..23u64).collect::<Vec<u64>>());
}

#[test]
fn flush_empties_buffer() {
    let (mut tx, rx) = log_channel();
    let mut buffer = ThreadBuffer::new();
    for i in 0..4u64 {
        buffer_log(&mut buffer, eager("x", i), &mut tx);
    }
    assert_eq!(buffer.len(), 4);
    assert_eq!(rx.try_iter().count(), 0);
    write_all_and_flush(&mut buffer, &mut tx);
    assert_eq!(buffer.len(), 0);
    assert_eq!(rx.try_iter().count(), 4);
    write_all_and_flush(&mut buffer, &mut tx);
    assert_eq!(buffer.len(), 0);
}

#[test]
fn flush_without_receiver_drops_silently() {
    let (mut tx, rx) = log_channel();
    drop(rx);
    let mut buffer = ThreadBuffer::new();
    for i in 0..12u64 {
        buffer_log(&mut buffer, eager("lost", i), &mut tx);
    }
    assert_eq!(buffer.len(), 2);
    write_all_and_flush(&mut buffer, &mut tx);
    assert_eq!(buffer.len(), 0);
}

#[test]
fn one_record_then_flush_gives_one_line() {
    let (mut tx, rx) = log_channel();
    let mut buffer = ThreadBuffer::new();
    buffer_log(&mut buffer, eager("System initialized", 1712345678), &mut tx);
    write_all_and_flush(&mut buffer, &mut tx);
    assert_eq!(buffer.len(), 0);
    let lines: Vec<String> = rx.try_iter().map(|e| e.format()).collect();
    assert_eq!(lines.len(), 1);
    let line = &lines[0];
    let rest = line.strip_prefix('[').unwrap();
    let close = rest.find(']').unwrap();
    assert!(close > 0 && rest[..close].chars().all(|c| c.is_ascii_digit()));
    assert_eq!(&rest[close..], "][Info] System initialized");
    assert_eq!(line.matches('[').count(), 2);
}

#[test]
fn formatted_record_through_channel() {
    let (mut tx, rx) = log_channel();
    let mut buffer = ThreadBuffer::new();
    let user = String::from("Alice");
    let attempts: i64 = 3;
    let entry = LogEntry {
        level: LogLevel::Info,
        message: LogMessage::LazyFormat {
            template: "User {} login attempts: {}",
            args: vec![LogArg::Text(user), LogArg::Int(attempts)],
        },
        timestamp: 99,
    };
    buffer_log(&mut buffer, entry, &mut tx);
    write_all_and_flush(&mut buffer, &mut tx);
    let line = rx.try_recv().unwrap().format();
    assert!(line.ends_with("] User Alice login attempts: 3"));
    assert_eq!(line, "[99][Info] User Alice login attempts: 3");
}

#[test]
fn first_configuration_wins() {
    let mut config = LogConfig::default();
    assert_eq!(config.file_path(), DEFAULT_LOG_FILE);
    assert!(!config.is_configured());
    init_logging(&mut config, "a.log");
    init_logging(&mut config, "b.log");
    assert_eq!(config.file_path(), "a.log");
    assert!(config.is_configured());
}

#[test]
fn writer_retries_then_drops() {
    let mut health = WriterHealth::new();
    assert_eq!(health.on_write_result(true), WriteAction::Next);
    assert_eq!(health.written, 1);
    for _ in 1..MAX_WRITE_ATTEMPTS {
        assert_eq!(health.on_write_result(false), WriteAction::Retry);
    }
    assert_eq!(health.failed_attempts, MAX_WRITE_ATTEMPTS - 1);
    assert_eq!(health.on_write_result(false), WriteAction::Next);
    assert_eq!(health.dropped, 1);
    assert_eq!(health.failed_attempts, 0);
    assert_eq!(health.on_write_result(false), WriteAction::Retry);
    assert_eq!(health.on_write_result(true), WriteAction::Next);
    assert_eq!(health.written, 2);
    assert_eq!(health.dropped, 1);
    assert_eq!(health.failed_attempts, 0);
}

#[test]
fn writer_counts_hold_at_maximum() {
    let mut health = WriterHealth { written: u64::MAX, dropped: 0, failed_attempts: 0 };
    assert_eq!(health.on_write_result(true), WriteAction::Next);
    assert_eq!(health.written, u64::MAX);
}

#[test]
fn handles_share_one_channel() {
    let (tx, rx) = log_channel();
    let mut first = tx.handle();
    let mut second = tx.handle();
    let mut buffer_a = ThreadBuffer::new();
    let mut buffer_b = ThreadBuffer::new();
    buffer_log(&mut buffer_a, eager("a", 1), &mut first);
    buffer_log(&mut buffer_b, eager("b", 2), &mut second);
    buffer_log(&mut buffer_a, eager("a", 3), &mut first);
    assert_eq!(buffer_a.len(), 2);
    assert_eq!(buffer_b.len(), 1);
    write_all_and_flush(&mut buffer_a, &mut first);
    write_all_and_flush(&mut buffer_b, &mut second);
    let stamps: Vec<u64> = rx.try_iter().map(|e| e.timestamp).collect();
    assert_eq!(stamps, vec![1, 3, 2]);
}
