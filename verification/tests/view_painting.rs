//! Tests of painting, erasing, abandoning, suspending and rate limiting,
//! observed through the capture destination.

use nutmeg::{Destination, Options, View};

struct MultiLineModel {
    i: usize,
}

impl nutmeg::Model for MultiLineModel {
    fn render(&mut self, _width: usize) -> String {
        format!("  count: {}\n    bar: {}\n", self.i, "*".repeat(self.i))
    }
}

#[test]
fn draw_progress_once() {
    let model = MultiLineModel { i: 0 };
    let options = Options::default().destination(Destination::Capture);
    let view = View::new(model, options);
    let output = view.captured_output();

    view.update(|model| model.i = 1);

    let written = output.get();
    assert_eq!(
        written,
        "\x1b[1G\x1b[?7l\x1b[0J  count: 1\n    bar: *\x1b[?7h"
    );
    output.clear();

    view.finish();
    let written = output.get();
    assert_eq!(written, "\x1b[1F\x1b[0J\x1b[?7h");
}

#[test]
fn abandoned_bar_is_not_erased() {
    let model = MultiLineModel { i: 0 };
    let view = View::new(model, Options::default().destination(Destination::Capture));
    let output = view.captured_output();

    view.update(|model| model.i = 1);
    view.abandon();

    // No erasure commands, just a newline after the last painted view.
    let written = output.get();
    assert_eq!(
        written,
        "\x1b[1G\x1b[?7l\x1b[0J  count: 1\n    bar: *\x1b[?7h\n"
    );
}

#[test]
fn rate_limiting_with_fake_clock() {
    struct Model {
        draw_count: usize,
        update_count: usize,
    }
    impl nutmeg::Model for Model {
        fn render(&mut self, _width: usize) -> String {
            self.draw_count += 1;
            format!("update:{} draw:{}", self.update_count, self.draw_count)
        }
    }
    let model = Model {
        draw_count: 0,
        update_count: 0,
    };
    let options = Options::default()
        .destination(Destination::Capture)
        .fake_clock(true)
        .update_interval(1);
    let mut fake_clock: u64 = 0;
    let view = View::new(model, options);
    view.set_fake_clock(fake_clock);
    let output = view.captured_output();

    // Any number of updates, but until the clock ticks only one will be drawn.
    for _i in 0..10 {
        view.update(|model| model.update_count += 1);
    }
    assert_eq!(view.inspect_model(|m| m.draw_count), 1);
    assert_eq!(view.inspect_model(|m| m.update_count), 10);

    // Time passes...
    fake_clock += 1000;
    view.set_fake_clock(fake_clock);
    // Another burst of updates, and just one of them will be drawn.
    for _i in 0..10 {
        view.update(|model| model.update_count += 1);
    }
    assert_eq!(view.inspect_model(|m| m.draw_count), 2);
    assert_eq!(view.inspect_model(|m| m.update_count), 20);

    view.finish();
    let written = output.get();
    assert_eq!(
        written,
        "\x1b[1G\x1b[?7l\x1b[0Jupdate:1 draw:1\x1b[?7h\
        \x1b[0F\x1b[?7l\x1b[0Jupdate:11 draw:2\x1b[?7h\
        \x1b[1G\x1b[0J\x1b[?7h"
    );
}

/// If output is redirected, it should not be affected by the width of
/// wherever stdout is pointing.
#[test]
fn default_width_when_not_on_stdout() {
    struct Model();
    impl nutmeg::Model for Model {
        fn render(&mut self, width: usize) -> String {
            assert_eq!(width, 80);
            format!("width={width}")
        }
    }
    let model = Model();
    let options = Options::default().destination(Destination::Capture);
    let view = View::new(model, options);

    view.update(|_model| ());
    let written = view.take_captured_output();
    assert_eq!(written, "\x1b[1G\x1b[?7l\x1b[0Jwidth=80\x1b[?7h");
}

#[test]
fn suspend_and_resume() {
    struct Model(usize);
    impl nutmeg::Model for Model {
        fn render(&mut self, _width: usize) -> String {
            format!("XX: {}", self.0)
        }
    }
    let model = Model(0);
    let options = Options::default()
        .destination(Destination::Capture)
        .update_interval(0);
    let view = View::new(model, options);

    // Paint 0 before it's suspended
    view.update(|model| model.0 = 0);
    let written = view.take_captured_output();
    assert_eq!(written, "\x1b[1G\x1b[?7l\x1b[0JXX: 0\x1b[?7h");

    // Now suspend; this clears the bar from the screen.
    view.suspend();
    view.update(|model| model.0 = 1);
    let written = view.take_captured_output();
    assert_eq!(written, "\x1b[1G\x1b[0J\x1b[?7h");

    // * 2 is also updated into the model while the bar is suspended, but then
    //   it's resumed, so 2 is then painted.
    view.update(|model| model.0 = 2);
    let written = view.take_captured_output();
    assert_eq!(written, "");

    // Now 2 is painted when resumed.
    view.resume();
    let written = view.take_captured_output();
    assert_eq!(written, "\x1b[1G\x1b[?7l\x1b[0JXX: 2\x1b[?7h");

    // * 3 and 4 are painted in the usual way.
    view.update(|model| model.0 = 3);
    view.update(|model| model.0 = 4);
    let written = view.take_captured_output();
    assert_eq!(
        written,
        "\x1b[0F\x1b[?7l\x1b[0JXX: 3\x1b[?7h\x1b[0F\x1b[?7l\x1b[0JXX: 4\x1b[?7h"
    );

    let output = view.captured_output();
    view.abandon();
    let written = output.get();
    assert_eq!(written, "\n");
}

#[test]
fn identical_output_suppressed() {
    struct Hundreds(usize);

    impl nutmeg::Model for Hundreds {
        fn render(&mut self, _width: usize) -> String {
            format!("hundreds={}", self.0 / 100)
        }
    }

    let options = Options::default()
        .destination(Destination::Capture)
        .update_interval(0);
    let view = View::new(Hundreds(0), options);

    for i in 0..200 {
        // We change the model, but not in a way that will change what's displayed.
        view.update(|model| model.0 = i);
    }

    let written = view.take_captured_output();
    assert_eq!(
        written,
        "\x1b[1G\x1b[?7l\x1b[0Jhundreds=0\x1b[?7h\x1b[0F\x1b[?7l\x1b[0Jhundreds=1\x1b[?7h"
    );
}
