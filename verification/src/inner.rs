//! The view state machine: what is currently on the screen, and the
//! decision procedure for repainting, erasing and interleaving printed
//! text.
//!
//! One [`InnerView`] lives behind each [`crate::View`]'s lock, so its
//! operations run with exclusive access. Every byte the machine ever sends
//! to its destination is also recorded in the ghost trace
//! [`InnerView::emitted`], which is what the contracts below speak about.

use vstd::prelude::*;
use vstd::string::StrSliceExecFns;
use vstd::string::StringExecFns;
use vstd::string::StringSliceAdditionalSpecFns;

use crate::ansi;
use crate::ansi::{compose_clear, compose_paint, paint_offset, strip_final_newline};
use crate::capture::CaptureBuffer;
use crate::destination::Destination;
use crate::options::Options;
use crate::Model;

verus! {

/// Relies on `std::io::Write::write_all` and `flush` on `std::io::stdout`:
/// sends the text to stdout at once. A failing terminal is a fatal error.
#[verifier::external_body]
pub(crate) fn emit_stdout(text: &str) {
    let mut out = std::io::stdout();
    std::io::Write::write_all(&mut out, text.as_bytes()).expect("write to stdout");
    std::io::Write::flush(&mut out).expect("flush stdout");
}

/// Relies on `std::io::Write::write_all` and `flush` on `std::io::stderr`:
/// sends the text to stderr at once. A failing terminal is a fatal error.
#[verifier::external_body]
pub(crate) fn emit_stderr(text: &str) {
    let mut out = std::io::stderr();
    std::io::Write::write_all(&mut out, text.as_bytes()).expect("write to stderr");
    std::io::Write::flush(&mut out).expect("flush stderr");
}

/// Relies on `std::time::SystemTime::now`: a wall-clock reading in
/// milliseconds. The reading depends on the machine, so nothing is promised
/// of it; every caller is verified for every possible reading.
#[verifier::external_body]
pub(crate) fn wall_clock_millis() -> u64 {
    match std::time::SystemTime::now().duration_since(std::time::UNIX_EPOCH) {
        Ok(d) => d.as_millis() as u64,
        Err(_) => 0,
    }
}

/// Milliseconds from `earlier` to `now`, or zero if the clock appears to
/// have moved backwards.
pub open spec fn elapsed_since(now: u64, earlier: u64) -> u64 {
    if now >= earlier {
        (now - earlier) as u64
    } else {
        0
    }
}

/// Milliseconds from `earlier` to `now`, guarded against a clock that
/// moved backwards.
pub fn elapsed_millis(now: u64, earlier: u64) -> (r: u64)
    ensures
        r == elapsed_since(now, earlier),
{
    if now >= earlier {
        now - earlier
    } else {
        0
    }
}

/// What is currently on the screen.
pub enum State {
    /// Nothing has ever been painted, and the destination has not yet been
    /// probed.
    Fresh,
    /// Progress is not visible and nothing was recently printed.
    Idle,
    /// The progress bar is currently displayed.
    Painted {
        /// When it was last painted, in clock milliseconds.
        last_paint: u64,
        /// How many lines the cursor sits below the first line of the
        /// painted region: the number of interior line terminators in
        /// `last_text`.
        cursor_offset: u64,
        /// The rendered text last painted, used to suppress repaints that
        /// would look identical.
        last_text: String,
    },
    /// A complete text line was just printed, and the progress bar stays
    /// away for the configured holdoff.
    JustPrinted {
        /// When the line was printed, in clock milliseconds.
        last_print: u64,
    },
    /// An incomplete text line has been printed, so the progress bar must
    /// not be drawn until the line is completed.
    IncompleteLine,
}

/// The bytes that erasing the given screen state emits: a painted bar is
/// erased with the clear sequence for its cursor offset, anything else
/// emits nothing.
pub open spec fn clear_emission(s: State) -> Seq<char> {
    match s {
        State::Painted { cursor_offset, .. } => compose_clear(cursor_offset as nat),
        _ => Seq::empty(),
    }
}

/// The cursor offset of the painted bar, if one is painted.
pub open spec fn painted_offset(s: State) -> Option<nat> {
    match s {
        State::Painted { cursor_offset, .. } => Option::Some(cursor_offset as nat),
        _ => Option::None,
    }
}

/// The real contents of a [`crate::View`], living behind its lock.
pub struct InnerView<M: Model> {
    /// Current application model.
    pub model: M,
    /// True if the progress bar is suspended and should not be drawn.
    pub suspended: bool,
    /// What is currently on the screen.
    pub state: State,
    /// The immutable configuration, except that `progress_enabled` drops
    /// to false for good when the destination turns out not to support
    /// progress bars.
    pub options: Options,
    /// The current time on the fake clock, once one has been set.
    pub fake_clock: Option<u64>,
    /// Captured output, created on first use when the destination is the
    /// capture buffer.
    pub capture: Option<CaptureBuffer>,
    /// Every character ever sent to the destination, in order.
    pub emitted: Ghost<Seq<char>>,
}

impl<M: Model> InnerView<M> {
    /// A painted state always records the cursor offset that its own text
    /// dictates.
    pub open spec fn wf(self) -> bool {
        self.state matches State::Painted { cursor_offset, last_text, .. }
            ==> cursor_offset == paint_offset(last_text@)
    }

    /// On this reading of the clock, the repaint decision procedure emits
    /// nothing: progress is off, suspended, blocked by an incomplete line,
    /// or rate limited.
    pub open spec fn repaint_blocked(self, now: u64) -> bool {
        ||| !self.options.progress_enabled
        ||| self.suspended
        ||| self.state is IncompleteLine
        ||| (self.state matches State::JustPrinted { last_print } && elapsed_since(now, last_print)
            < self.options.print_holdoff)
        ||| (self.state matches State::Painted { last_paint, .. } && elapsed_since(now, last_paint)
            < self.options.update_interval)
    }

    /// How the one-time destination probe relates the machine before and
    /// after: the `Fresh` state becomes `Idle`, the probe may permanently
    /// switch progress off (never on, and never for the capture buffer),
    /// and nothing else changes.
    pub open spec fn init_rel(pre: Self, post: Self) -> bool {
        &&& post.model == pre.model
        &&& post.suspended == pre.suspended
        &&& post.fake_clock == pre.fake_clock
        &&& post.emitted == pre.emitted
        &&& post.capture == pre.capture
        &&& post.state == (if pre.state is Fresh {
            State::Idle
        } else {
            pre.state
        })
        &&& post.options.update_interval == pre.options.update_interval
        &&& post.options.print_holdoff == pre.options.print_holdoff
        &&& post.options.fake_clock == pre.options.fake_clock
        &&& post.options.destination == pre.options.destination
        &&& (post.options.progress_enabled ==> pre.options.progress_enabled)
        &&& (!(pre.state is Fresh) ==> post.options.progress_enabled
            == pre.options.progress_enabled)
        &&& (pre.options.destination is Capture ==> post.options.progress_enabled
            == pre.options.progress_enabled)
    }

    /// The same machine with the model replaced.
    pub open spec fn with_model(pre: Self, m: M) -> Self {
        InnerView { model: m, ..pre }
    }

    /// Fields that a repaint or erase never touches.
    pub open spec fn frame_display(pre: Self, post: Self) -> bool {
        &&& post.suspended == pre.suspended
        &&& post.options == pre.options
        &&& post.fake_clock == pre.fake_clock
    }

    /// The capture buffer handle changes at most once, from absent to
    /// present.
    pub open spec fn capture_rel(pre: Self, post: Self) -> bool {
        post.capture == pre.capture || (pre.capture is None && post.capture is Some)
    }

    /// One attempt to repaint, after the destination probe: given the
    /// clock reading `now`, the answer `w` of the width query, and the
    /// text `rendered` that the model produced, this says exactly what the
    /// machine does. When the attempt is blocked or no width is available
    /// nothing at all happens; when the freshly rendered text matches what
    /// is already painted nothing is emitted; otherwise exactly one paint
    /// sequence is emitted and recorded.
    pub open spec fn paint_rel(
        pre: Self,
        post: Self,
        now: u64,
        w: Option<usize>,
        rendered: Seq<char>,
    ) -> bool {
        if pre.repaint_blocked(now) || w is None {
            post == pre
        } else {
            let stripped = strip_final_newline(rendered);
            &&& Self::frame_display(pre, post)
            &&& if pre.state matches State::Painted { last_text, .. } && last_text@ == stripped {
                &&& post.state == pre.state
                &&& post.emitted == pre.emitted
                &&& post.capture == pre.capture
            } else {
                &&& (post.state matches State::Painted { last_paint, cursor_offset, last_text }
                    && last_paint == now && cursor_offset == paint_offset(stripped) && last_text@
                    == stripped)
                &&& post.emitted@ == pre.emitted@ + compose_paint(
                    stripped,
                    painted_offset(pre.state),
                )
                &&& Self::capture_rel(pre, post)
            }
        }
    }

    /// The full repaint decision procedure: a destination probe, then one
    /// repaint attempt under some clock reading and width answer. Where
    /// the configuration makes those answers deterministic (a fake clock,
    /// the capture destination) they are pinned down.
    pub open spec fn paint_progress_post(pre: Self, post: Self) -> bool {
        exists|mid: Self, now: u64, w: Option<usize>, rendered: Seq<char>|
            {
                &&& Self::init_rel(pre, mid)
                &&& #[trigger] Self::paint_rel(mid, post, now, w, rendered)
                &&& (pre.fake_clock matches Option::Some(t) ==> now == t)
                &&& (pre.options.destination is Capture ==> w == Option::Some(80usize))
            }
    }

    /// The fake clock says a painted bar is too recent to repaint.
    pub open spec fn fake_clock_rate_limited(self) -> bool {
        &&& self.fake_clock matches Option::Some(now) && (self.state matches State::Painted {
            last_paint,
            ..
        } && elapsed_since(now, last_paint) < self.options.update_interval)
    }

    /// The fake clock says a printed line is too recent to repaint over.
    pub open spec fn fake_clock_print_held(self) -> bool {
        &&& self.fake_clock matches Option::Some(now) && (self.state
            matches State::JustPrinted { last_print } && elapsed_since(now, last_print)
            < self.options.print_holdoff)
    }

    /// A new machine: nothing painted, nothing probed, nothing emitted.
    pub fn new(model: M, options: Options) -> (r: InnerView<M>)
        ensures
            r.model == model,
            r.suspended == false,
            r.state is Fresh,
            r.options == options,
            r.fake_clock is None,
            r.capture is None,
            r.emitted@ == Seq::<char>::empty(),
            r.wf(),
    {
        InnerView {
            model,
            suspended: false,
            state: State::Fresh,
            options,
            fake_clock: None,
            capture: None,
            emitted: Ghost(Seq::empty()),
        }
    }

    /// The reading of the clock that drives rate limiting: the fake clock
    /// once one was set, else the wall clock.
    pub fn clock(&self) -> (now: u64)
        ensures
            self.fake_clock matches Option::Some(t) ==> now == t,
    {
        match self.fake_clock {
            Option::Some(t) => t,
            Option::None => wall_clock_millis(),
        }
    }

    /// Send text to the destination and record it in the emitted trace.
    fn write_output(&mut self, text: &str)
        ensures
            final(self).emitted@ == old(self).emitted@ + text@,
            final(self).model == old(self).model,
            final(self).state == old(self).state,
            final(self).suspended == old(self).suspended,
            final(self).options == old(self).options,
            final(self).fake_clock == old(self).fake_clock,
            Self::capture_rel(*old(self), *final(self)),
    {
        match self.options.destination {
            Destination::Stdout => emit_stdout(text),
            Destination::Stderr => emit_stderr(text),
            Destination::Capture => {
                if self.capture.is_none() {
                    self.capture = Option::Some(CaptureBuffer::new());
                }
                match &self.capture {
                    Option::Some(buf) => buf.append(text),
                    Option::None => {},
                }
            },
        }
        self.emitted = Ghost(self.emitted@ + text@);
    }

    /// Probe the destination once: after the first call the machine is
    /// never `Fresh` again, and a destination that cannot display progress
    /// has switched progress off for good.
    pub fn init_destination(&mut self)
        ensures
            Self::init_rel(*old(self), *final(self)),
            !(final(self).state is Fresh),
            old(self).wf() ==> final(self).wf(),
    {
        match self.state {
            State::Fresh => {
                if self.options.destination.initialize().is_err() {
                    self.options.progress_enabled = false;
                }
                self.state = State::Idle;
            },
            _ => {},
        }
    }

    /// Decide whether to repaint, and repaint if so.
    pub fn paint_progress(&mut self)
        requires
            old(self).wf(),
        ensures
            final(self).wf(),
            Self::paint_progress_post(*old(self), *final(self)),
            final(self).suspended == old(self).suspended,
            final(self).fake_clock == old(self).fake_clock,
            final(self).options.update_interval == old(self).options.update_interval,
            final(self).options.print_holdoff == old(self).options.print_holdoff,
            final(self).options.fake_clock == old(self).options.fake_clock,
            final(self).options.destination == old(self).options.destination,
            final(self).options.progress_enabled ==> old(self).options.progress_enabled,
            old(self).suspended ==> final(self).emitted == old(self).emitted && final(self).model
                == old(self).model,
            old(self).state is IncompleteLine ==> final(self).emitted == old(self).emitted
                && final(self).model == old(self).model && final(self).state is IncompleteLine,
            !old(self).options.progress_enabled ==> final(self).emitted == old(self).emitted
                && final(self).model == old(self).model,
            old(self).fake_clock_rate_limited() ==> *final(self) == *old(self),
            old(self).fake_clock_print_held() ==> *final(self) == *old(self),
    {
        self.init_destination();
        let ghost mid = *self;
        if !self.options.progress_enabled || self.suspended {
            proof {
                assert(Self::paint_rel(mid, *self, witness_now(mid), witness_width(mid), Seq::empty()));
            }
            return ;
        }
        let now = self.clock();
        let blocked = match &self.state {
            State::IncompleteLine => true,
            State::Fresh | State::Idle => false,
            State::JustPrinted { last_print } => elapsed_millis(now, *last_print)
                < self.options.print_holdoff,
            State::Painted { last_paint, .. } => elapsed_millis(now, *last_paint)
                < self.options.update_interval,
        };
        if blocked {
            proof {
                assert(Self::paint_rel(mid, *self, now, witness_width(mid), Seq::empty()));
            }
            return ;
        }
        let width_opt = self.options.destination.width();
        let width = match width_opt {
            Option::None => {
                proof {
                    assert(Self::paint_rel(mid, *self, now, Option::<usize>::None, Seq::empty()));
                }
                return ;
            },
            Option::Some(w) => w,
        };
        let rendered = self.model.render(width);
        let stripped = ansi::strip_final_newline_str(rendered.as_str()).to_owned();
        let mut prev: Option<u64> = Option::None;
        let mut same = false;
        match &self.state {
            State::Painted { cursor_offset, last_text, .. } => {
                prev = Option::Some(*cursor_offset);
                if *last_text == stripped {
                    same = true;
                }
            },
            _ => {},
        }
        if same {
            proof {
                assert(Self::paint_rel(mid, *self, now, width_opt, rendered@));
            }
            return ;
        }
        let (buf, cursor_y) = ansi::insert_codes(stripped.as_str(), prev);
        self.write_output(buf.as_str());
        self.state = State::Painted { last_paint: now, cursor_offset: cursor_y, last_text: stripped };
        proof {
            assert(Self::paint_rel(mid, *self, now, width_opt, rendered@));
        }
    }

    /// Erase the progress bar from the screen if it is painted, leaving
    /// the machine ready to print other output.
    pub fn clear(&mut self)
        requires
            old(self).wf(),
        ensures
            final(self).wf(),
            final(self).emitted@ == old(self).emitted@ + clear_emission(old(self).state),
            final(self).state == (if old(self).state is Painted {
                State::Idle
            } else {
                old(self).state
            }),
            final(self).model == old(self).model,
            final(self).suspended == old(self).suspended,
            final(self).options == old(self).options,
            final(self).fake_clock == old(self).fake_clock,
            Self::capture_rel(*old(self), *final(self)),
    {
        let cursor = match &self.state {
            State::Painted { cursor_offset, .. } => Option::Some(*cursor_offset),
            _ => Option::None,
        };
        match cursor {
            Option::Some(n) => {
                let buf = ansi::erase_codes(n);
                self.write_output(buf.as_str());
                self.state = State::Idle;
            },
            Option::None => {
                proof {
                    assert(self.emitted@ =~= self.emitted@ + clear_emission(self.state));
                }
            },
        }
    }

    /// Hide the progress bar and keep it hidden until [`Self::resume`].
    pub fn suspend(&mut self)
        requires
            old(self).wf(),
        ensures
            final(self).wf(),
            final(self).suspended == true,
            final(self).emitted@ == old(self).emitted@ + clear_emission(old(self).state),
            final(self).state == (if old(self).state is Painted {
                State::Idle
            } else {
                old(self).state
            }),
            final(self).model == old(self).model,
            final(self).options == old(self).options,
            final(self).fake_clock == old(self).fake_clock,
            Self::capture_rel(*old(self), *final(self)),
    {
        self.suspended = true;
        self.clear();
    }

    /// Let the progress bar appear again, and repaint it at once so that
    /// updates made while suspended become visible without waiting for the
    /// next update.
    pub fn resume(&mut self)
        requires
            old(self).wf(),
        ensures
            final(self).wf(),
            final(self).suspended == false,
            Self::paint_progress_post(
                (InnerView { suspended: false, ..*old(self) }),
                *final(self),
            ),
            final(self).fake_clock == old(self).fake_clock,
            final(self).options.fake_clock == old(self).options.fake_clock,
            final(self).options.destination == old(self).options.destination,
    {
        self.suspended = false;
        self.paint_progress();
    }

    /// Apply `update_fn` to the model — always, whatever the display
    /// decides — and then attempt a repaint.
    pub fn update<R, U: FnOnce(&mut M) -> R>(&mut self, update_fn: U) -> (r: R)
        requires
            old(self).wf(),
            forall|m: &mut M| #[trigger] update_fn.requires((m,)),
        ensures
            final(self).wf(),
            exists|m: &mut M| #[trigger] call_ensures(update_fn, (m,), r),
            exists|m2: M|
                #[trigger] Self::paint_progress_post(
                    Self::with_model(*old(self), m2),
                    *final(self),
                ),
            final(self).suspended == old(self).suspended,
            final(self).fake_clock == old(self).fake_clock,
            final(self).options.update_interval == old(self).options.update_interval,
            final(self).options.print_holdoff == old(self).options.print_holdoff,
            final(self).options.fake_clock == old(self).options.fake_clock,
            final(self).options.destination == old(self).options.destination,
            final(self).options.progress_enabled ==> old(self).options.progress_enabled,
            old(self).suspended ==> final(self).emitted == old(self).emitted,
            old(self).state is IncompleteLine ==> final(self).emitted == old(self).emitted
                && final(self).state is IncompleteLine,
            !old(self).options.progress_enabled ==> final(self).emitted == old(self).emitted,
            old(self).fake_clock_rate_limited() ==> final(self).emitted == old(self).emitted
                && final(self).state == old(self).state,
            old(self).fake_clock_print_held() ==> final(self).emitted == old(self).emitted
                && final(self).state == old(self).state,
    {
        let r = update_fn(&mut self.model);
        let ghost mid = *self;
        self.paint_progress();
        proof {
            assert(Self::paint_progress_post(Self::with_model(*old(self), mid.model), *self));
        }
        r
    }

    /// The clock reading is the fake clock's value, when one is set.
    pub open spec fn clock_ok(pre: Self, now: u64) -> bool {
        pre.fake_clock matches Option::Some(t) ==> now == t
    }

    /// What printing a non-empty message does: any painted bar is erased
    /// first, the message follows it verbatim, and the machine remembers
    /// either that a line was just printed (when the message ends with a
    /// line terminator, starting the holdoff at some clock reading `now`)
    /// or that the line is still incomplete, which blocks all painting.
    pub open spec fn write_post(pre: Self, post: Self, msg: Seq<char>) -> bool {
        exists|now: u64|
            {
                &&& #[trigger] Self::clock_ok(pre, now)
                &&& post.emitted@ == pre.emitted@ + clear_emission(pre.state) + msg
                &&& post.state == (if msg.last() == '\n' {
                    State::JustPrinted { last_print: now }
                } else {
                    State::IncompleteLine
                })
                &&& post.model == pre.model
                &&& post.suspended == pre.suspended
                &&& post.fake_clock == pre.fake_clock
                &&& post.options.update_interval == pre.options.update_interval
                &&& post.options.print_holdoff == pre.options.print_holdoff
                &&& post.options.fake_clock == pre.options.fake_clock
                &&& post.options.destination == pre.options.destination
                &&& (post.options.progress_enabled ==> pre.options.progress_enabled)
                &&& (!(pre.state is Fresh) ==> post.options.progress_enabled
                    == pre.options.progress_enabled)
                &&& (pre.options.destination is Capture ==> post.options.progress_enabled
                    == pre.options.progress_enabled)
                &&& Self::capture_rel(pre, post)
            }
    }

    /// Print a message, removing any painted bar first. An empty message
    /// does nothing at all. Returns the number of bytes printed.
    pub fn write(&mut self, message: &str) -> (n: usize)
        requires
            old(self).wf(),
        ensures
            final(self).wf(),
            n == message.spec_bytes().len(),
            message@.len() == 0 ==> *final(self) == *old(self),
            message@.len() > 0 ==> Self::write_post(*old(self), *final(self), message@),
    {
        let byte_count = message.as_bytes().len();
        let len = message.unicode_len();
        if len == 0 {
            return byte_count;
        }
        self.init_destination();
        self.clear();
        let now = self.clock();
        if message.get_char(len - 1) == '\n' {
            self.state = State::JustPrinted { last_print: now };
        } else {
            self.state = State::IncompleteLine;
        }
        self.write_output(message);
        proof {
            assert(Self::clock_ok(*old(self), now));
        }
        byte_count
    }

    /// Move the fake clock, which all rate-limiting decisions then read.
    pub fn set_fake_clock(&mut self, fake_clock: u64)
        requires
            old(self).options.fake_clock,
        ensures
            *final(self) == (InnerView { fake_clock: Option::Some(fake_clock), ..*old(self) }),
    {
        self.fake_clock = Option::Some(fake_clock);
    }

    /// What leaving the bar behind emits: a painted bar gets a final line
    /// terminator under it — and nothing is erased — while any other state
    /// emits nothing; afterwards the machine considers the screen idle.
    pub fn abandon_emit(&mut self)
        requires
            old(self).wf(),
        ensures
            final(self).wf(),
            final(self).state is Idle,
            old(self).state is Painted ==> final(self).emitted@ == old(self).emitted@
                + seq!['\n'],
            !(old(self).state is Painted) ==> final(self).emitted == old(self).emitted,
            final(self).model == old(self).model,
            final(self).suspended == old(self).suspended,
            final(self).options == old(self).options,
            final(self).fake_clock == old(self).fake_clock,
            Self::capture_rel(*old(self), *final(self)),
    {
        let painted = match &self.state {
            State::Painted { .. } => true,
            _ => false,
        };
        if painted {
            proof {
                reveal_strlit("\n");
            }
            self.write_output("\n");
            proof {
                assert("\n"@ =~= seq!['\n']);
            }
        }
        self.state = State::Idle;
    }

    /// Stop using this machine, leaving any painted bar visible on the
    /// screen, and hand back the model together with the final emitted
    /// trace: when a bar was painted, exactly one line terminator was
    /// emitted under it and nothing was erased; in every other state
    /// nothing was emitted at all.
    pub fn abandon(self) -> (r: (M, Ghost<Seq<char>>))
        requires
            self.wf(),
        ensures
            r.0 == self.model,
            self.state is Painted ==> r.1@ == self.emitted@ + seq!['\n'],
            !(self.state is Painted) ==> r.1@ == self.emitted@,
    {
        let mut this = self;
        this.abandon_emit();
        let trace = Ghost(this.emitted@);
        (this.model, trace)
    }

    /// The bytes that a teardown appends after the erase: the model's
    /// final message and a line terminator, or nothing when the message is
    /// empty.
    pub open spec fn teardown_emission(fm: Seq<char>) -> Seq<char> {
        if fm.len() > 0 {
            fm + seq!['\n']
        } else {
            Seq::<char>::empty()
        }
    }

    /// What finishing emits: any painted bar is erased, and then the
    /// model's final message — whatever it turns out to be — is printed
    /// with a line terminator, if it is non-empty.
    pub fn finish_emit(&mut self)
        requires
            old(self).wf(),
        ensures
            final(self).wf(),
            exists|fm: Seq<char>|
                final(self).emitted@ == old(self).emitted@ + clear_emission(old(self).state)
                    + #[trigger] Self::teardown_emission(fm),
            final(self).state == (if old(self).state is Painted {
                State::Idle
            } else {
                old(self).state
            }),
            final(self).suspended == old(self).suspended,
            final(self).options == old(self).options,
            final(self).fake_clock == old(self).fake_clock,
            Self::capture_rel(*old(self), *final(self)),
    {
        self.clear();
        let mut fm = self.model.final_message();
        let ghost fmseq = fm@;
        if fm.unicode_len() > 0 {
            proof {
                reveal_strlit("\n");
            }
            fm.append("\n");
            self.write_output(fm.as_str());
            proof {
                assert(fm@ =~= Self::teardown_emission(fmseq));
            }
        } else {
            proof {
                assert(self.emitted@ + Self::teardown_emission(fmseq) =~= self.emitted@);
            }
        }
    }

    /// Erase any painted bar, print the model's final message if there is
    /// one, and hand back the model — as the final-message hook left it —
    /// together with the final emitted trace: the erase for whatever was
    /// painted, then the final message followed by a line terminator if
    /// it was non-empty, and nothing more.
    pub fn finish(self) -> (r: (M, Ghost<Seq<char>>))
        requires
            self.wf(),
        ensures
            exists|fm: Seq<char>|
                r.1@ == self.emitted@ + clear_emission(self.state)
                    + #[trigger] Self::teardown_emission(fm),
    {
        let mut this = self;
        this.finish_emit();
        let trace = Ghost(this.emitted@);
        (this.model, trace)
    }

    /// Apply `f` to the model and return its result, without attempting
    /// any repaint: nothing is emitted, and neither the display state nor
    /// the clocks change.
    pub fn inspect<R, F: FnOnce(&mut M) -> R>(&mut self, f: F) -> (r: R)
        requires
            forall|m: &mut M| #[trigger] f.requires((m,)),
        ensures
            exists|m: &mut M| #[trigger] call_ensures(f, (m,), r),
            final(self).emitted == old(self).emitted,
            final(self).state == old(self).state,
            final(self).suspended == old(self).suspended,
            final(self).options == old(self).options,
            final(self).fake_clock == old(self).fake_clock,
            final(self).capture == old(self).capture,
            old(self).wf() ==> final(self).wf(),
    {
        f(&mut self.model)
    }

    /// The shared buffer of captured output, created on first use.
    pub fn captured_output(&mut self) -> (r: CaptureBuffer)
        ensures
            final(self).capture is Some,
            final(self).emitted == old(self).emitted,
            final(self).state == old(self).state,
            final(self).model == old(self).model,
            final(self).suspended == old(self).suspended,
            final(self).options == old(self).options,
            final(self).fake_clock == old(self).fake_clock,
            Self::capture_rel(*old(self), *final(self)),
            old(self).wf() ==> final(self).wf(),
    {
        if self.capture.is_none() {
            self.capture = Option::Some(CaptureBuffer::new());
        }
        match &self.capture {
            Option::Some(buf) => buf.clone(),
            Option::None => CaptureBuffer::new(),
        }
    }

    /// A copy of the captured output so far, leaving the buffer empty; an
    /// empty string when nothing has created the buffer yet.
    pub fn take_captured_output(&self) -> (s: String) {
        match &self.capture {
            Option::Some(buf) => buf.take(),
            Option::None => String::new(),
        }
    }
}

/// A clock reading under which nothing would be painted anyway; used as a
/// witness on paths that return before reading the clock.
spec fn witness_now<M: Model>(pre: InnerView<M>) -> u64 {
    match pre.fake_clock {
        Option::Some(t) => t,
        Option::None => 0,
    }
}

/// A width answer consistent with the destination; used as a witness on
/// paths that return before querying the width.
spec fn witness_width<M: Model>(pre: InnerView<M>) -> Option<usize> {
    if pre.options.destination is Capture {
        Option::Some(80usize)
    } else {
        Option::None
    }
}

} // verus!
