//! Tests of the pre-built models.

use nutmeg::models::{BasicModel, LinearModel, StringPair, UnboundedModel};
use nutmeg::{Destination, Options, View};

#[test]
fn string_pair_concatenates() {
    let options = Options::default()
        .destination(Destination::Capture)
        .update_interval(0);
    let view = View::new(StringPair::new("Copying: ", ""), options);
    view.update(|model| model.set_suffix("/etc/hostname"));
    let written = view.take_captured_output();
    assert_eq!(
        written,
        "\x1b[1G\x1b[?7l\x1b[0JCopying: /etc/hostname\x1b[?7h"
    );
}

#[test]
fn linear_model_counts_and_percent() {
    let mut model = LinearModel::new("Things done", 100);
    model.set_done(10);
    let options = Options::default()
        .destination(Destination::Capture)
        .update_interval(0);
    let view = View::new(model, options);
    view.update(|model| model.increment(3));
    assert_eq!(view.inspect_model(|m| m.done), 13);
    let written = view.take_captured_output();
    assert!(
        written.contains("Things done: 13/100, 13.0%, "),
        "unexpected render: {written:?}"
    );
    assert!(written.ends_with(" remaining\x1b[?7h"));
}

#[test]
fn linear_model_set_total() {
    let mut model = LinearModel::new("x", 10);
    model.set_total(25);
    model.set_done(5);
    let options = Options::default()
        .destination(Destination::Capture)
        .update_interval(0);
    let view = View::new(model, options);
    view.update(|_m| ());
    let written = view.take_captured_output();
    assert!(written.contains("x: 5/25, 20.0%, "), "unexpected render: {written:?}");
}

#[test]
fn unbounded_model_counts_up() {
    let options = Options::default()
        .destination(Destination::Capture)
        .update_interval(0);
    let view = View::new(UnboundedModel::new("Raindrops"), options);
    view.update(|model| model.increment(68));
    assert_eq!(view.inspect_model(|m| m.done), 68);
    let written = view.take_captured_output();
    assert!(
        written.contains("Raindrops: 68 in "),
        "unexpected render: {written:?}"
    );
}

#[test]
fn basic_model_renders_value() {
    let options = Options::default()
        .destination(Destination::Capture)
        .update_interval(0);
    let view = View::new(
        BasicModel::new((0usize, 10usize), |(a, b)| format!("{a}/{b} complete")),
        options,
    );
    view.update(|model| {
        let (a, b) = *model.value();
        model.set_value((a + 1, b));
    });
    let written = view.take_captured_output();
    assert_eq!(written, "\x1b[1G\x1b[?7l\x1b[0J1/10 complete\x1b[?7h");
}
