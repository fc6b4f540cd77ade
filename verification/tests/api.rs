//! API tests: disabled progress, interleaved messages, incomplete lines,
//! multi-line bars, and the capture destination.

use nutmeg::{Destination, Options, View};

struct MultiLineModel {
    i: usize,
}

impl nutmeg::Model for MultiLineModel {
    fn render(&mut self, _width: usize) -> String {
        format!("  count: {}\n    bar: {}\n", self.i, "*".repeat(self.i))
    }
}

#[test]
fn disabled_progress_is_not_drawn() {
    let model = MultiLineModel { i: 0 };
    let options = Options::default()
        .destination(Destination::Capture)
        .progress_enabled(false);
    let view = View::new(model, options);
    let output = view.captured_output();

    for i in 0..10 {
        view.update(|model| model.i = i);
    }
    view.finish();

    assert_eq!(output.get(), "");
}

#[test]
fn disabled_progress_does_not_block_print() {
    let model = MultiLineModel { i: 0 };
    let options = Options::default()
        .destination(Destination::Capture)
        .progress_enabled(false);
    let view = View::new(model, options);
    let output = view.captured_output();

    for i in 0..2 {
        view.update(|model| model.i = i);
        view.message(&format!("print line {i}\n"));
    }
    view.finish();

    assert_eq!(output.get(), "print line 0\nprint line 1\n");
}

struct CountModel {
    i: usize,
}

impl nutmeg::Model for CountModel {
    fn render(&mut self, _width: usize) -> String {
        format!("count: {}", self.i)
    }
}

/// Three sequential updates paint three frames: the first homes the
/// cursor with a plain move-to-column-1, while the second and third move
/// up zero lines, because a previous paint exists.
#[test]
fn three_updates_three_paints() {
    let options = Options::default()
        .destination(Destination::Capture)
        .update_interval(0)
        .print_holdoff(0);
    let view = View::new(CountModel { i: 0 }, options);

    view.update(|model| model.i = 0);
    view.update(|model| model.i = 1);
    view.update(|model| model.i = 2);

    let written = view.take_captured_output();
    assert_eq!(
        written,
        "\x1b[1G\x1b[?7l\x1b[0Jcount: 0\x1b[?7h\
         \x1b[0F\x1b[?7l\x1b[0Jcount: 1\x1b[?7h\
         \x1b[0F\x1b[?7l\x1b[0Jcount: 2\x1b[?7h"
    );
}

/// A message without a final line terminator blocks painting until a
/// later message completes the line.
#[test]
fn incomplete_line_blocks_painting() {
    let options = Options::default()
        .destination(Destination::Capture)
        .update_interval(0)
        .print_holdoff(0);
    let view = View::new(CountModel { i: 0 }, options);

    view.update(|model| model.i = 1);
    view.message("partial");
    view.update(|model| model.i = 2);
    view.update(|model| model.i = 3);
    let written = view.take_captured_output();
    assert_eq!(
        written,
        "\x1b[1G\x1b[?7l\x1b[0Jcount: 1\x1b[?7h\x1b[1G\x1b[0J\x1b[?7hpartial"
    );

    // Completing the line unblocks painting again.
    view.message(" done\n");
    view.update(|model| model.i = 4);
    let written = view.take_captured_output();
    assert_eq!(written, " done\n\x1b[1G\x1b[?7l\x1b[0Jcount: 4\x1b[?7h");
}

/// An empty message emits nothing and does not block painting.
#[test]
fn empty_message_is_a_no_op() {
    let options = Options::default()
        .destination(Destination::Capture)
        .update_interval(0)
        .print_holdoff(0);
    let view = View::new(CountModel { i: 0 }, options);

    view.update(|model| model.i = 1);
    view.message("");
    view.update(|model| model.i = 2);
    let written = view.take_captured_output();
    assert_eq!(
        written,
        "\x1b[1G\x1b[?7l\x1b[0Jcount: 1\x1b[?7h\x1b[0F\x1b[?7l\x1b[0Jcount: 2\x1b[?7h"
    );
}

struct ThreeLineModel {
    i: usize,
}

impl nutmeg::Model for ThreeLineModel {
    fn render(&mut self, _width: usize) -> String {
        format!("a: {}\nb: {}\nc: {}", self.i, self.i, self.i)
    }
}

/// A render with two interior line terminators leaves a cursor offset of
/// two: the next paint moves up exactly two lines, and so does the erase.
#[test]
fn multi_line_cursor_tracking() {
    let options = Options::default()
        .destination(Destination::Capture)
        .update_interval(0)
        .print_holdoff(0);
    let view = View::new(ThreeLineModel { i: 0 }, options);

    view.update(|model| model.i = 1);
    view.update(|model| model.i = 2);
    let written = view.take_captured_output();
    assert_eq!(
        written,
        "\x1b[1G\x1b[?7l\x1b[0Ja: 1\nb: 1\nc: 1\x1b[?7h\
         \x1b[2F\x1b[?7l\x1b[0Ja: 2\nb: 2\nc: 2\x1b[?7h"
    );

    view.finish();
}

/// Painting then clearing emits the erase for exactly the painted lines.
#[test]
fn erasure_round_trip() {
    let options = Options::default()
        .destination(Destination::Capture)
        .update_interval(0)
        .print_holdoff(0);
    let view = View::new(ThreeLineModel { i: 0 }, options);

    view.update(|model| model.i = 7);
    view.clear();
    let written = view.take_captured_output();
    assert_eq!(
        written,
        "\x1b[1G\x1b[?7l\x1b[0Ja: 7\nb: 7\nc: 7\x1b[?7h\x1b[2F\x1b[0J\x1b[?7h"
    );
    // Clearing again does nothing: the bar is gone.
    view.clear();
    assert_eq!(view.take_captured_output(), "");
}

#[test]
fn message_bytes_accepts_utf8() {
    let options = Options::default().destination(Destination::Capture);
    let view = View::new(CountModel { i: 0 }, options);
    view.message_bytes(b"hello crow\n");
    assert_eq!(view.take_captured_output(), "hello crow\n");
}

/// A model's final message is printed on finish, with a line terminator.
#[test]
fn final_message_printed_on_finish() {
    struct Model;
    impl nutmeg::Model for Model {
        fn render(&mut self, _width: usize) -> String {
            "working".to_owned()
        }
        fn final_message(&mut self) -> String {
            "all done".to_owned()
        }
    }
    let options = Options::default()
        .destination(Destination::Capture)
        .update_interval(0);
    let view = View::new(Model, options);
    view.update(|_m| ());
    let output = view.captured_output();
    output.clear();
    view.finish();
    assert_eq!(output.get(), "\x1b[1G\x1b[0J\x1b[?7hall done\n");
}

/// The holdoff after a printed line suppresses painting while the fake
/// clock stands still, and painting resumes once it advances.
#[test]
fn print_holdoff_suppresses_painting() {
    let options = Options::default()
        .destination(Destination::Capture)
        .update_interval(0)
        .print_holdoff(100)
        .fake_clock(true);
    let view = View::new(CountModel { i: 0 }, options);
    view.set_fake_clock(1000);

    view.message("a line\n");
    view.update(|model| model.i = 1);
    view.update(|model| model.i = 2);
    let written = view.take_captured_output();
    assert_eq!(written, "a line\n");

    view.set_fake_clock(1100);
    view.update(|model| model.i = 3);
    let written = view.take_captured_output();
    assert_eq!(written, "\x1b[1G\x1b[?7l\x1b[0Jcount: 3\x1b[?7h");
}
