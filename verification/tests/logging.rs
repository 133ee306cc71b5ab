use fs25_ffb::logging::{push_line, snapshot, LogRing, RingTee, MAX_LINES};
use fs25_ffb::ring::push_ring;

#[test]
fn a_ring_keeps_the_newest() {
    let mut v: Vec<u32> = Vec::new();
    for i in 0..10 {
        push_ring(&mut v, i, 3);
    }
    assert_eq!(v, vec![7, 8, 9]);
}

#[test]
fn the_log_keeps_the_newest_lines() {
    let mut ring = LogRing::new();
    for i in 0..MAX_LINES + 5 {
        push_line(&mut ring, format!("line {}", i));
    }
    let lines = snapshot(&ring);
    assert_eq!(lines.len(), 1000);
    assert_eq!(lines[0], "line 5");
    assert_eq!(lines[999], "line 1004");
}

#[test]
fn output_is_cut_into_lines() {
    let mut ring = LogRing::new();
    let mut w = RingTee::new().make_writer();
    w.write(b"one\ntwo\n\nthr", &mut ring);
    assert_eq!(snapshot(&ring), vec!["one", "two"]);
    w.write(b"ee\n", &mut ring);
    assert_eq!(snapshot(&ring), vec!["one", "two", "three"]);
}

#[test]
fn chunks_do_not_matter() {
    let text = "a\u{e9}\nb\n\nc d\nrest".as_bytes();
    let mut whole = LogRing::new();
    let mut w = RingTee::default().make_writer();
    w.write(text, &mut whole);
    let mut bytewise = LogRing::new();
    let mut w = RingTee::default().make_writer();
    for b in text {
        w.write(&[*b], &mut bytewise);
    }
    assert_eq!(snapshot(&whole), snapshot(&bytewise));
    assert_eq!(snapshot(&whole), vec!["a\u{e9}", "b", "c d"]);
}

#[test]
fn a_flush_hands_over_what_is_left() {
    let mut ring = LogRing::new();
    let mut w = RingTee::new().make_writer();
    w.write(b"half a line", &mut ring);
    assert_eq!(snapshot(&ring).len(), 0);
    w.flush(&mut ring);
    assert_eq!(snapshot(&ring), vec!["half a line"]);
    w.flush(&mut ring);
    assert_eq!(snapshot(&ring).len(), 1);
}

#[test]
fn absorbed_output_waits_to_be_cut() {
    let mut ring = LogRing::new();
    let mut w = RingTee::new().make_writer();
    w.absorb(b"x\ny");
    assert_eq!(snapshot(&ring).len(), 0);
    w.drain_lines(&mut ring);
    assert_eq!(snapshot(&ring), vec!["x"]);
    w.flush(&mut ring);
    assert_eq!(snapshot(&ring), vec!["x", "y"]);
}

#[test]
fn malformed_output_is_shown_with_replacements() {
    let mut ring = LogRing::new();
    let mut w = RingTee::new().make_writer();
    w.write(b"a\xffb\n", &mut ring);
    assert_eq!(snapshot(&ring), vec!["a\u{fffd}b"]);
}
