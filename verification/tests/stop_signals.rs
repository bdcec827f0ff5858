use screen_recorder::signal::{
    apply_line_input, apply_raw_read, initial_sentinel_content, line_input_stops, raw_byte_stops,
    raw_read_stops, sentinel_content_stops, sentinel_file_name,
};
use screen_recorder::token::CancelToken;

#[test]
fn raw_byte_q_stops() {
    assert!(raw_byte_stops(0x71));
    assert!(raw_byte_stops(b'q'));
}

#[test]
fn raw_byte_others_ignored() {
    for b in 0..=255u8 {
        if b != 0x71 {
            assert!(!raw_byte_stops(b));
        }
    }
    assert!(!raw_byte_stops(b'Q'));
}

#[test]
fn raw_read_needs_exactly_one_byte() {
    assert!(raw_read_stops(1, b'q'));
    assert!(!raw_read_stops(0, b'q'));
    assert!(!raw_read_stops(2, b'q'));
    assert!(!raw_read_stops(1, b'a'));
}

#[test]
fn line_one_stops() {
    assert!(line_input_stops("1"));
}

#[test]
fn line_one_with_surrounding_whitespace_stops() {
    assert!(line_input_stops("1\n"));
    assert!(line_input_stops(" 1"));
    assert!(line_input_stops("\t 1 \r\n"));
}

#[test]
fn line_trims_the_same_whitespace_as_str_trim() {
    for line in ["\u{00A0}1\u{3000}", "\u{2003}1\u{0085}", "\u{1680}\u{202F}1\u{2028}"] {
        assert_eq!(line.trim(), "1");
        assert!(line_input_stops(line));
    }
    // A zero-width space is not White_Space, for str::trim nor for the line
    // listener.
    assert_eq!("\u{200B}1".trim(), "\u{200B}1");
    assert!(!line_input_stops("\u{200B}1"));
}

#[test]
fn line_other_inputs_rejected() {
    assert!(!line_input_stops("yes"));
    assert!(!line_input_stops(""));
    assert!(!line_input_stops("11"));
    assert!(!line_input_stops("0"));
    assert!(!line_input_stops("   "));
    assert!(!line_input_stops("1 1"));
    assert!(!line_input_stops("q"));
}

#[test]
fn sentinel_one_stops() {
    assert!(sentinel_content_stops("1"));
}

#[test]
fn sentinel_zero_never_stops() {
    assert!(!sentinel_content_stops("0"));
}

#[test]
fn sentinel_needs_exact_content() {
    assert!(!sentinel_content_stops("1\n"));
    assert!(!sentinel_content_stops(" 1"));
    assert!(!sentinel_content_stops("01"));
    assert!(!sentinel_content_stops(""));
}

#[test]
fn sentinel_initial_state_is_zero() {
    let initial = initial_sentinel_content();
    assert_eq!(initial, "0");
    assert!(!sentinel_content_stops(&initial));
}

#[test]
fn sentinel_file_is_trigger_txt() {
    assert_eq!(sentinel_file_name(), "trigger.txt");
}

#[test]
fn raw_listener_step_sets_the_flag_only_on_q() {
    let token = CancelToken::new();
    assert!(!apply_raw_read(&token, 1, b'a'));
    assert!(!apply_raw_read(&token, 0, b'q'));
    assert!(!token.is_stop_requested());
    assert!(apply_raw_read(&token, 1, b'q'));
    assert!(token.is_stop_requested());
}

#[test]
fn line_listener_step_sets_the_flag_only_on_one() {
    let token = CancelToken::new();
    assert!(!apply_line_input(&token, "yes"));
    assert!(!apply_line_input(&token, "11"));
    assert!(!apply_line_input(&token, ""));
    assert!(!token.is_stop_requested());
    assert!(apply_line_input(&token, "1\n"));
    assert!(token.is_stop_requested());
}

#[test]
fn token_starts_false_and_latches_true() {
    let token = CancelToken::new();
    assert!(!token.is_stop_requested());
    let listener_handle = token.handle();
    assert!(!listener_handle.is_stop_requested());
    listener_handle.request_stop();
    assert!(token.is_stop_requested());
    assert!(listener_handle.is_stop_requested());
}
