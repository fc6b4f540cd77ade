//! Nutmeg draws multi-line terminal progress bars while letting ordinary
//! output lines flow around them.
//!
//! The application keeps whatever state it likes in a *model* — any type
//! implementing [`Model`] — and renders it to text on demand. A [`View`]
//! owns the model, decides when a repaint is actually worth emitting
//! (rate limits, holdoffs after printed text, suppression of identical
//! frames), and knows how to erase and redraw a multi-line bar without
//! leaving artifacts behind.
//!
//! The view is shared freely across threads: every operation takes its
//! internal lock, so updates from different threads are simply serialized.
//!
//! Messages interleaved with the bar go through [`View::message`]; the bar
//! is erased to make room and repainted later, subject to the configured
//! holdoff. A message without a final line terminator leaves the line
//! incomplete, and the bar stays away until a later message completes it.
//!
//! Every byte the view sends to its destination is also recorded in a
//! ghost trace, and the contracts of the state machine in [`inner`] pin
//! down exactly what is emitted when; the laws in [`laws`] state the
//! headline guarantees in one place.

use vstd::prelude::*;
use vstd::rwlock::{RwLock, RwLockPredicate};
use vstd::view::View as VstdView;

pub mod ansi;
pub mod capture;
pub mod context;
pub mod destination;
pub mod helpers;
pub mod inner;
pub mod laws;
pub mod models;
pub mod options;
pub mod terminal;
pub mod to_print;

use crate::capture::CaptureBuffer;
use crate::inner::InnerView;

pub use crate::context::RenderContext;
pub use crate::destination::Destination;
pub use crate::helpers::{estimate_remaining, percent_done};
pub use crate::options::Options;

verus! {

/// An application-defined type that holds whatever state is relevant to
/// the progress bar, and that can render it into one or more lines of
/// text.
pub trait Model: Sized {
    /// Render this model into a string to draw on the console.
    ///
    /// This is called by the [`View`] when it wants to repaint the screen
    /// after [`View::update`] was called.
    ///
    /// The `width` advises the rendering code of the width of the
    /// terminal, to draw a full-width bar or truncate sections; the model
    /// may also ignore it.
    ///
    /// The rendered text may contain ANSI escape sequences for styling,
    /// but must not itself move the cursor. Lines are separated by `\n`;
    /// one final `\n` is tolerated and ignored.
    fn render(&mut self, width: usize) -> String;

    /// Optionally render a final message when the view is finished.
    ///
    /// By default this is empty and nothing is printed. A non-empty final
    /// message is printed, followed by a line terminator, when the view is
    /// finished — but not when it is abandoned.
    fn final_message(&mut self) -> String {
        String::new()
    }
}

/// Relies on `core::str::from_utf8`: the bytes reinterpreted as text,
/// when they are valid UTF-8.
#[verifier::external_body]
fn bytes_to_str(b: &[u8]) -> (r: Option<&str>)
    ensures
        r matches Option::Some(s) ==> vstd::utf8::valid_utf8(b@) && s@ == vstd::utf8::decode_utf8(
            b@,
        ),
        r is None ==> !vstd::utf8::valid_utf8(b@),
{
    core::str::from_utf8(b).ok()
}

/// The invariant carried by the view's lock: the machine inside is
/// well-formed, and the parts of its configuration that never change
/// match what the view was constructed with.
pub struct ViewPred {
    /// Whether the fake clock was enabled at construction.
    pub fake: bool,
    /// The destination chosen at construction.
    pub dest: Destination,
}

impl<M: Model> RwLockPredicate<InnerView<M>> for ViewPred {
    open spec fn inv(self, v: InnerView<M>) -> bool {
        &&& v.wf()
        &&& v.options.fake_clock == self.fake
        &&& v.options.destination == self.dest
    }
}

/// A view that draws and coordinates a progress bar on the terminal.
///
/// There should be only one `View` active on a terminal at any time, and
/// while it is in use it should be the only channel by which output is
/// printed.
///
/// The view may be shared freely across threads: every operation
/// serializes through one internal lock around the whole state — the
/// model, the display state and the rate-limiting clocks — so concurrent
/// callers cooperate instead of painting over each other.
///
/// There is no destructor: a view that goes out of scope without
/// [`View::finish`] or [`View::abandon`] emits nothing further, so a
/// painted bar stays on the screen. End a view explicitly.
pub struct View<M: Model> {
    /// The real state of the view, behind a verified lock.
    inner: RwLock<InnerView<M>, ViewPred>,
}

impl<M: Model> View<M> {
    /// Whether the fake clock was enabled in this view's options.
    pub closed spec fn fake_clock_enabled(&self) -> bool {
        self.inner.pred().fake
    }

    /// The destination this view writes to.
    pub closed spec fn chosen_destination(&self) -> Destination {
        self.inner.pred().dest
    }

    /// Construct a new progress view owning `model`.
    ///
    /// `options` can typically be `Options::default()`. Progress bars are
    /// switched off for good, the first time painting comes up, if the
    /// destination turns out not to support them — for example when
    /// stdout is not a terminal, or the terminal is known-dumb.
    pub fn new(model: M, options: Options) -> (v: View<M>)
        ensures
            v.fake_clock_enabled() == options.fake_clock,
            v.chosen_destination() == options.destination,
    {
        let ghost pred = ViewPred { fake: options.fake_clock, dest: options.destination };
        View { inner: RwLock::new(InnerView::new(model, options), Ghost(pred)) }
    }

    /// Update the model, and possibly repaint the screen to reflect the
    /// update.
    ///
    /// The callback always runs and its result is always returned:
    /// rate limiting affects only the display, never the model. After the
    /// callback, the bar is repainted unless the view is suspended,
    /// progress is off or not supported, an incomplete message line is
    /// pending, the previous paint or print is too recent, or the
    /// rendered text is identical to what is already on the screen.
    pub fn update<R, U: FnOnce(&mut M) -> R>(&self, update_fn: U) -> (r: R)
        requires
            forall|m: &mut M| #[trigger] update_fn.requires((m,)),
        ensures
            exists|m: &mut M| #[trigger] call_ensures(update_fn, (m,), r),
    {
        let (mut iv, handle) = self.inner.acquire_write();
        let r = iv.update(update_fn);
        handle.release_write(iv);
        r
    }

    /// Hide the progress bar if it is currently drawn, and leave it
    /// hidden until [`View::resume`] is called.
    pub fn suspend(&self) {
        let (mut iv, handle) = self.inner.acquire_write();
        iv.suspend();
        handle.release_write(iv);
    }

    /// Remove the progress bar if it is currently drawn, but let it be
    /// repainted when the model is next updated.
    pub fn clear(&self) {
        let (mut iv, handle) = self.inner.acquire_write();
        iv.clear();
        handle.release_write(iv);
    }

    /// Allow the progress bar to be drawn again, reversing the effect of
    /// [`View::suspend`], and repaint it at once so that updates made
    /// while suspended become visible.
    pub fn resume(&self) {
        let (mut iv, handle) = self.inner.acquire_write();
        iv.resume();
        handle.release_write(iv);
    }

    /// Set the value of the fake clock, in milliseconds, for testing.
    ///
    /// The fake clock must have been enabled in the options. Times given
    /// here should never move backwards; all interval comparisons guard
    /// against it regardless.
    pub fn set_fake_clock(&self, fake_clock: u64)
        requires
            self.fake_clock_enabled(),
    {
        let (mut iv, handle) = self.inner.acquire_write();
        iv.set_fake_clock(fake_clock);
        handle.release_write(iv);
    }

    /// Inspect the view's model: `f` is applied to the model under the
    /// lock, and its result is returned. Unlike [`View::update`] no
    /// repaint is attempted: nothing is emitted and the display state is
    /// untouched.
    pub fn inspect_model<R, F: FnOnce(&mut M) -> R>(&self, f: F) -> (r: R)
        requires
            forall|m: &mut M| #[trigger] f.requires((m,)),
        ensures
            exists|m: &mut M| #[trigger] call_ensures(f, (m,), r),
    {
        let (mut iv, handle) = self.inner.acquire_write();
        let r = iv.inspect(f);
        handle.release_write(iv);
        r
    }

    /// Print a message to the view.
    ///
    /// Any painted bar is removed first, and painting then stays off for
    /// the configured print holdoff. The message may contain ANSI styling
    /// and multiple lines, and typically ends with `\n`. If its last
    /// character is *not* `\n`, the incomplete line stays on the terminal
    /// and the bar is not painted again until a later message completes
    /// the line.
    pub fn message(&self, message: &str) {
        let (mut iv, handle) = self.inner.acquire_write();
        let _ = iv.write(message);
        handle.release_write(iv);
    }

    /// Print a message given as UTF-8 bytes; otherwise the same as
    /// [`View::message`].
    pub fn message_bytes(&self, message: &[u8])
        requires
            vstd::utf8::valid_utf8(message@),
    {
        match bytes_to_str(message) {
            Option::Some(s) => self.message(s),
            Option::None => {},
        }
    }

    /// The shared buffer of captured output, for a view writing to
    /// [`Destination::Capture`].
    ///
    /// The buffer is shared, so it remains readable after the view is
    /// finished or abandoned. This is intended for use in testing.
    pub fn captured_output(&self) -> CaptureBuffer {
        let (mut iv, handle) = self.inner.acquire_write();
        let buf = iv.captured_output();
        handle.release_write(iv);
        buf
    }

    /// Return a copy of the captured output and clear the capture buffer,
    /// so that tests can check output incrementally.
    ///
    /// Output capture must have been enabled by choosing
    /// [`Destination::Capture`].
    pub fn take_captured_output(&self) -> String
        requires
            self.chosen_destination() is Capture,
    {
        let (iv, handle) = self.inner.acquire_write();
        let s = iv.take_captured_output();
        handle.release_write(iv);
        s
    }

    /// Stop using this view, leaving the progress bar visible if it is
    /// currently painted, with a final line terminator under it. Nothing
    /// is erased, and no final message is printed. Returns the model.
    ///
    /// The emission — one line terminator when painted, nothing
    /// otherwise — is pinned by [`InnerView::abandon`]'s contract; at
    /// this façade the state sits behind the lock and no clause can name
    /// it.
    pub fn abandon(self) -> M {
        self.inner.into_inner().abandon().0
    }

    /// Erase the progress bar from the screen if drawn, print the model's
    /// final message if it has one, destroy the view, and return the
    /// model.
    ///
    /// The emission is pinned by [`InnerView::finish`]'s contract; at
    /// this façade the state sits behind the lock and no clause can name
    /// it.
    pub fn finish(self) -> M {
        self.inner.into_inner().finish().0
    }
}

} // verus!
