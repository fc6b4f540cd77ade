//! Exercise the real stdout and stderr destinations from inside a test:
//! in a test harness neither stream is a terminal, so no progress is
//! painted, and only the plain messages are written.

struct DisplayModel(&'static str);

impl nutmeg::Model for DisplayModel {
    fn render(&mut self, _width: usize) -> String {
        self.0.to_owned()
    }
}

#[test]
fn view_stdout_captured() {
    let view = nutmeg::View::new(DisplayModel("hello"), nutmeg::Options::default());
    view.update(|DisplayModel(message)| *message = "stdout progress should be captured");
    view.message("stdout message should be captured\n");
}

#[test]
fn view_stderr_captured() {
    let view = nutmeg::View::new(
        DisplayModel("initial"),
        nutmeg::Options::default().destination(nutmeg::Destination::Stderr),
    );
    view.update(|model| model.0 = "stderr progress should be captured");
    view.message("stderr message should be captured\n");
}
