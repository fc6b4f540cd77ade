//! Options controlling a view.

use vstd::prelude::*;

use crate::destination::Destination;

verus! {

/// Options controlling a [`crate::View`].
///
/// These are supplied to the view constructor and cannot be changed after
/// the view is created. All intervals are in milliseconds.
///
/// The default options returned by [`Options::new`] should be reasonable
/// for most applications: repaints and the post-print holdoff are limited
/// to one per 100ms, progress bars are enabled, and output goes to stdout.
#[derive(Debug, Clone, Copy)]
pub struct Options {
    /// Target interval between repaints of the progress bar, in milliseconds.
    pub update_interval: u64,
    /// How long to wait after printing output before drawing the progress
    /// bar again, in milliseconds.
    pub print_holdoff: u64,
    /// Is the progress bar drawn at all?
    pub progress_enabled: bool,
    /// Use a fake clock for testing.
    pub fake_clock: bool,
    /// Write progress and messages to stdout, stderr, or a capture buffer.
    pub destination: Destination,
}

impl Options {
    /// Return some reasonable default options.
    pub fn new() -> (r: Options)
        ensures
            r.update_interval == 100,
            r.print_holdoff == 100,
            r.progress_enabled == true,
            r.fake_clock == false,
            r.destination is Stdout,
    {
        Options {
            update_interval: 100,
            print_holdoff: 100,
            progress_enabled: true,
            fake_clock: false,
            destination: Destination::Stdout,
        }
    }

    /// Set whether the progress bar will be drawn.
    ///
    /// By default it is drawn, except that the view will ignore this value
    /// if its destination turns out not to support progress bars.
    pub fn progress_enabled(self, progress_enabled: bool) -> (r: Options)
        ensures
            r == (Options { progress_enabled, ..self }),
    {
        Options { progress_enabled, ..self }
    }

    /// Set the minimal interval in milliseconds between repaints of the
    /// progress bar.
    ///
    /// Zero can be used to cause the bar to repaint on every update.
    pub fn update_interval(self, update_interval: u64) -> (r: Options)
        ensures
            r == (Options { update_interval, ..self }),
    {
        Options { update_interval, ..self }
    }

    /// Set the minimal interval in milliseconds between printing a message
    /// and painting the progress bar again.
    ///
    /// This avoids the bar flickering when the application repeatedly
    /// prints messages at short intervals. Zero disables the holdoff.
    pub fn print_holdoff(self, print_holdoff: u64) -> (r: Options)
        ensures
            r == (Options { print_holdoff, ..self }),
    {
        Options { print_holdoff, ..self }
    }

    /// Enable use of a fake clock, for testing.
    ///
    /// When true, all decisions about when to repaint use the fake clock,
    /// which starts at zero and is advanced with
    /// [`crate::View::set_fake_clock`].
    pub fn fake_clock(self, fake_clock: bool) -> (r: Options)
        ensures
            r == (Options { fake_clock, ..self }),
    {
        Options { fake_clock, ..self }
    }

    /// Set whether progress bars are drawn to stdout, stderr, or an
    /// internal capture buffer.
    ///
    /// [`Destination::Stdout`] is the default. [`Destination::Stderr`] may
    /// be useful for programs that expect stdout to be redirected to a
    /// file and still want progress output on the terminal.
    pub fn destination(self, destination: Destination) -> (r: Options)
        ensures
            r == (Options { destination, ..self }),
    {
        Options { destination, ..self }
    }
}

impl Default for Options {
    /// Create default reasonable view options, the same as [`Options::new`].
    fn default() -> (r: Options)
        ensures
            r.update_interval == 100,
            r.print_holdoff == 100,
            r.progress_enabled == true,
            r.fake_clock == false,
            r.destination is Stdout,
    {
        Options::new()
    }
}

} // verus!
