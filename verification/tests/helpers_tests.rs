//! Tests of the free helper functions and the low-level composer.

use nutmeg::ansi::{erase_codes, insert_codes, num_to_string, up_n_lines_and_home};
use nutmeg::destination::stream_allows_progress;
use nutmeg::helpers::estimate_remaining_from;
use nutmeg::percent_done;

#[test]
fn percent_done_halfway() {
    assert_eq!(percent_done(6, 12), "50.0%");
}

#[test]
fn percent_done_with_no_total_is_unknown() {
    assert_eq!(percent_done(0, 0), "??%");
}

#[test]
fn percent_done_more_done_than_total_is_unknown() {
    assert_eq!(percent_done(11, 10), "??%");
}

#[test]
fn percent_done_rounds_to_one_decimal() {
    assert_eq!(percent_done(1, 3), "33.3%");
    assert_eq!(percent_done(2, 3), "66.7%");
    assert_eq!(percent_done(0, 7), "0.0%");
    assert_eq!(percent_done(7, 7), "100.0%");
}

#[test]
fn estimate_remaining_extrapolates_linearly() {
    // 10 seconds elapsed, half the work done: 10 seconds remain.
    assert_eq!(
        estimate_remaining_from(10_000, 50, 100),
        Some("10 sec".to_owned())
    );
    // Two minutes or more switch to whole minutes.
    assert_eq!(
        estimate_remaining_from(120_000, 1, 2),
        Some("2 min".to_owned())
    );
    assert_eq!(
        estimate_remaining_from(119_000, 1, 2),
        Some("119 sec".to_owned())
    );
}

#[test]
fn estimate_remaining_undefined_cases() {
    assert_eq!(estimate_remaining_from(0, 50, 100), None);
    assert_eq!(estimate_remaining_from(10_000, 0, 100), None);
    assert_eq!(estimate_remaining_from(10_000, 50, 0), None);
    assert_eq!(estimate_remaining_from(10_000, 101, 100), None);
}

#[test]
fn numbers_render_in_decimal() {
    assert_eq!(num_to_string(0), "0");
    assert_eq!(num_to_string(7), "7");
    assert_eq!(num_to_string(12345), "12345");
    assert_eq!(num_to_string(u64::MAX), "18446744073709551615");
}

#[test]
fn up_n_lines_sequences() {
    assert_eq!(up_n_lines_and_home(0), "\x1b[1G");
    assert_eq!(up_n_lines_and_home(1), "\x1b[1F");
    assert_eq!(up_n_lines_and_home(42), "\x1b[42F");
}

#[test]
fn insert_codes_single_line() {
    let (bytes, offset) = insert_codes("hello", None);
    assert_eq!(bytes, "\x1b[1G\x1b[?7l\x1b[0Jhello\x1b[?7h");
    assert_eq!(offset, 0);
}

#[test]
fn insert_codes_repaint_moves_up() {
    let (bytes, offset) = insert_codes("a\nb", Some(1));
    assert_eq!(bytes, "\x1b[1F\x1b[?7l\x1b[0Ja\nb\x1b[?7h");
    assert_eq!(offset, 1);
}

#[test]
fn insert_codes_strips_one_trailing_newline() {
    let (bytes, offset) = insert_codes("a\nb\n", Some(0));
    assert_eq!(bytes, "\x1b[0F\x1b[?7l\x1b[0Ja\nb\x1b[?7h");
    assert_eq!(offset, 1);
}

#[test]
fn erase_codes_for_offsets() {
    assert_eq!(erase_codes(0), "\x1b[1G\x1b[0J\x1b[?7h");
    assert_eq!(erase_codes(2), "\x1b[2F\x1b[0J\x1b[?7h");
}

#[test]
fn render_context_reports_width() {
    let ctx = nutmeg::context::RenderContext::new(120);
    assert_eq!(ctx.width(), 120);
}

#[test]
fn estimate_remaining_with_nothing_done_is_unknown() {
    // Whatever the wall clock reads, no work done means no estimate.
    assert_eq!(nutmeg::estimate_remaining(0, 0, 10), None);
    assert_eq!(nutmeg::estimate_remaining(0, 5, 0), None);
}

#[test]
fn plain_writers_report_byte_length() {
    let mut w = nutmeg::to_print::WriteToPrint::new();
    assert_eq!(w.write("ab\n"), 3);
    // Two characters, three bytes: the byte count is reported.
    assert_eq!(w.write("\u{e9}\n"), 3);
    w.flush();
    let mut e = nutmeg::to_print::WriteToStderr::new();
    assert_eq!(e.write("cd\n"), 3);
    e.flush();
}

#[test]
fn stream_viability_decision() {
    assert!(stream_allows_progress(true, "xterm-256color"));
    assert!(!stream_allows_progress(false, "xterm-256color"));
    assert!(!stream_allows_progress(true, "dumb"));
    assert!(!stream_allows_progress(true, "DUMB"));
    assert!(!stream_allows_progress(true, "Dumb"));
    assert!(stream_allows_progress(true, ""));
}
