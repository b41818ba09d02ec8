use topic_logger::naming::log_file_name;
use topic_logger::rotation::{RotationEngine, RotationPolicy};
use topic_logger::stamp::Stamp;

/// Drives the engine through one line as the writer does, with the given size of
/// any file it opens; returns the index of the file the line lands in.
fn submit(e: &mut RotationEngine, line_len: usize, now_ms: u64) -> usize {
    let start = e.begin_line(now_ms);
    if start.open_index.is_some() {
        e.file_opened(0, now_ms);
    }
    e.admit_line(line_len);
    e.line_written(line_len, now_ms);
    e.index
}

fn engine(max: usize, timeout_ms: u64) -> RotationEngine {
    RotationEngine::new(RotationPolicy { max_file_size: max, idle_timeout_ms: timeout_ms })
}

#[test]
fn three_eighty_byte_lines_rotate_once() {
    let mut e = engine(200, 1000);
    let line = "x".repeat(80);
    assert_eq!(submit(&mut e, line.len(), 0), 0);
    assert_eq!(submit(&mut e, line.len(), 10), 0);
    assert_eq!(e.open.unwrap().size, 162);
    assert_eq!(submit(&mut e, line.len(), 20), 1);
    assert_eq!(e.open.unwrap().size, 81);
    let s = Stamp::from_fields(2024, 5, 1, 8, 0, 0).unwrap();
    assert_eq!(log_file_name(&s, "sensors/a", e.index), "2024-05-01_08-00-00-sensors_a-01.jsonl");
}

#[test]
fn size_rotation_at_exact_limit() {
    let mut e = engine(100, 1000);
    assert_eq!(submit(&mut e, 49, 0), 0);
    // 50 + 50 reaches the limit exactly: the line goes to a new file.
    let start = e.begin_line(1);
    assert_eq!(start.open_index, None);
    assert_eq!(e.admit_line(49), Some(1));
    e.line_written(49, 1);
    assert_eq!(e.index, 1);
    assert_eq!(e.open.unwrap().size, 50);
}

#[test]
fn idle_gap_restarts_index_at_zero() {
    let mut e = engine(100, 1000);
    for t in 0..5u64 {
        submit(&mut e, 59, t);
    }
    assert_eq!(e.index, 4);
    let start = e.begin_line(1005);
    assert!(start.idle_closed);
    assert_eq!(start.open_index, Some(0));
    assert_eq!(e.index, 0);
}

#[test]
fn no_idle_rotation_at_timeout() {
    let mut e = engine(100, 1000);
    submit(&mut e, 9, 0);
    let start = e.begin_line(1000);
    assert!(!start.idle_closed);
    assert_eq!(start.open_index, None);
}

#[test]
fn index_wraps_from_ninety_nine() {
    let mut e = engine(10, 1_000_000);
    for t in 0..100u64 {
        submit(&mut e, 4, t);
    }
    assert_eq!(e.index, 99);
    assert_eq!(submit(&mut e, 4, 100), 0);
}

#[test]
fn existing_file_size_counts() {
    let mut e = engine(100, 1000);
    let start = e.begin_line(0);
    assert_eq!(start.open_index, Some(0));
    e.file_opened(95, 0);
    assert_eq!(e.admit_line(3), None);
    assert_eq!(e.admit_line(4), Some(1));
}

#[test]
fn oversized_line_gets_its_own_file() {
    let mut e = engine(10, 1000);
    assert_eq!(submit(&mut e, 20, 0), 1);
    assert_eq!(e.open.unwrap().size, 21);
    assert_eq!(submit(&mut e, 20, 1), 2);
}

#[test]
fn after_idle_gap_rotation_continues_at_one() {
    let mut e = engine(100, 1000);
    for t in 0..8u64 {
        submit(&mut e, 59, t);
    }
    assert_eq!(e.index, 7);
    assert_eq!(submit(&mut e, 59, 5000), 0);
    assert_eq!(submit(&mut e, 59, 5001), 1);
    assert_eq!(submit(&mut e, 59, 5002), 2);
}
