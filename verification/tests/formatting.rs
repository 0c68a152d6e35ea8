use dlm::progress_bars::{
    compose_log_line, message_progress_bar, pending_message, timestamped_log_line, MESSAGE_WIDTH,
};

#[test]
fn label_truncates_long_input() {
    let long = "0123456789012345678901234567890123456789";
    let r = message_progress_bar(long);
    assert_eq!(r.chars().count(), MESSAGE_WIDTH);
    assert_eq!(r, "01234567890123456789012345678901234");
}

#[test]
fn label_pads_short_input() {
    let r = message_progress_bar("abc");
    assert_eq!(r.chars().count(), MESSAGE_WIDTH);
    assert_eq!(r, "                                abc");
}

#[test]
fn label_passes_exact_width_unchanged() {
    let exact = "abcdefghijklmnopqrstuvwxyz123456789";
    assert_eq!(exact.chars().count(), MESSAGE_WIDTH);
    let r = message_progress_bar(exact);
    assert_eq!(r, exact);
}

#[test]
fn label_formatting_is_idempotent() {
    for s in ["", "abc", "0123456789012345678901234567890123456789", "pending"] {
        let once = message_progress_bar(s);
        let twice = message_progress_bar(&once);
        assert_eq!(once, twice);
    }
}

#[test]
fn label_empty_input_becomes_all_spaces() {
    let r = message_progress_bar("");
    assert_eq!(r, " ".repeat(MESSAGE_WIDTH));
}

#[test]
fn pending_message_is_padded_pending() {
    let r = pending_message();
    assert_eq!(r, message_progress_bar("pending"));
    assert_eq!(r.chars().count(), MESSAGE_WIDTH);
    assert!(r.ends_with("pending"));
}

#[test]
fn log_line_has_bracketed_stamp() {
    let r = compose_log_line("12:30:00", "fetched one file");
    assert_eq!(r, "[12:30:00] fetched one file");
}

#[test]
fn timestamped_line_wraps_clock_and_message() {
    let r = timestamped_log_line("fetched one file");
    assert!(r.starts_with('['));
    assert!(r.ends_with("] fetched one file"));
    // The stamp between the brackets comes from the clock and is not empty.
    assert!(r.len() > "[] fetched one file".len());
}
