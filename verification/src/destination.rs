//! Where progress bars and messages are written, and whether that place
//! can display progress bars at all.

use vstd::prelude::*;
use vstd::string::StrSliceExecFns;

verus! {

/// Destinations for progress bar output.
#[derive(Debug, Clone, Copy, PartialEq, Eq, Structural)]
pub enum Destination {
    /// Draw to stdout.
    Stdout,
    /// Draw to stderr.
    Stderr,
    /// Draw to an internal capture buffer, which can be retrieved with
    /// [`crate::View::captured_output`].
    ///
    /// This is intended for testing. A width of 80 columns is reported.
    Capture,
}

/// Relies on `atty::is`: whether the chosen standard stream is attached to
/// a terminal. The answer depends on the process's environment, so nothing
/// is promised about it.
#[verifier::external_body]
fn stream_is_terminal(stderr: bool) -> bool {
    if stderr {
        atty::is(atty::Stream::Stderr)
    } else {
        atty::is(atty::Stream::Stdout)
    }
}

/// Relies on `envmnt::get_or`: the value of the `TERM` environment
/// variable, or the empty string when it is unset or unreadable. The answer
/// depends on the process's environment, so nothing is promised about it.
#[verifier::external_body]
fn term_variable() -> String {
    envmnt::get_or("TERM", "")
}

/// Relies on `terminal_size::terminal_size_of`: the width in columns of
/// the terminal behind the chosen standard stream, or none when it is not
/// a terminal. The answer depends on the process's environment, so nothing
/// is promised about it.
#[verifier::external_body]
fn stream_width_columns(stderr: bool) -> Option<u16> {
    let size = if stderr {
        terminal_size::terminal_size_of(std::io::stderr())
    } else {
        terminal_size::terminal_size_of(std::io::stdout())
    };
    size.map(|(w, _h)| w.0)
}

/// A terminal name that declares the terminal unable to interpret escape
/// sequences: the four letters of "dumb" in either case.
pub open spec fn is_dumb_name(s: Seq<char>) -> bool {
    s.len() == 4 && (s[0] == 'd' || s[0] == 'D') && (s[1] == 'u' || s[1] == 'U') && (s[2] == 'm'
        || s[2] == 'M') && (s[3] == 'b' || s[3] == 'B')
}

/// Does this terminal name spell "dumb", ignoring case?
fn is_dumb_term_name(s: &str) -> (r: bool)
    ensures
        r == is_dumb_name(s@),
{
    let len = s.unicode_len();
    if len != 4 {
        return false;
    }
    let c0 = s.get_char(0);
    let c1 = s.get_char(1);
    let c2 = s.get_char(2);
    let c3 = s.get_char(3);
    (c0 == 'd' || c0 == 'D') && (c1 == 'u' || c1 == 'U') && (c2 == 'm' || c2 == 'M') && (c3 == 'b'
        || c3 == 'B')
}

/// A probed standard stream can display progress bars when it is a
/// terminal and its `TERM` value does not name a dumb terminal.
pub open spec fn stream_viable(is_tty: bool, term: Seq<char>) -> bool {
    is_tty && !is_dumb_name(term)
}

/// The viability decision for a standard stream, as a function of the
/// probed values: true exactly when the stream is a terminal whose
/// `TERM` value is not "dumb".
pub fn stream_allows_progress(is_tty: bool, term: &str) -> (r: bool)
    ensures
        r == stream_viable(is_tty, term@),
{
    is_tty && !is_dumb_term_name(term)
}

impl Destination {
    /// Determine once whether this destination can display progress bars:
    /// the capture buffer always can; a standard stream can exactly when
    /// [`stream_allows_progress`] says so of the probed terminal flag and
    /// `TERM` value, both of which depend on the process's environment.
    pub(crate) fn initialize(&self) -> (r: Result<(), ()>)
        ensures
            *self is Capture ==> r is Ok,
    {
        let viable = match self {
            Destination::Stdout => stream_allows_progress(
                stream_is_terminal(false),
                term_variable().as_str(),
            ),
            Destination::Stderr => stream_allows_progress(
                stream_is_terminal(true),
                term_variable().as_str(),
            ),
            Destination::Capture => true,
        };
        if viable {
            Ok(())
        } else {
            Err(())
        }
    }

    /// The width in columns to render against on this attempt: a fixed 80
    /// for the capture buffer, else the current width of the terminal. The
    /// terminal is queried afresh on every call, since its size can change
    /// at any time.
    pub(crate) fn width(&self) -> (r: Option<usize>)
        ensures
            *self is Capture ==> r == Option::Some(80usize),
    {
        match self {
            Destination::Stdout => match stream_width_columns(false) {
                Option::Some(w) => Option::Some(w as usize),
                Option::None => Option::None,
            },
            Destination::Stderr => match stream_width_columns(true) {
                Option::Some(w) => Option::Some(w as usize),
                Option::None => Option::None,
            },
            Destination::Capture => Option::Some(80),
        }
    }
}

} // verus!
