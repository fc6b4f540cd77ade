//! Generally reusable models.
//!
//! These are provided because they may be easy to use for many
//! applications that do not want to customize the progress display. There
//! is no requirement to use them: they only implement the public [`Model`]
//! interface.

use vstd::prelude::*;
use vstd::string::StrSliceExecFns;
use vstd::string::StringExecFns;

use crate::ansi::{dec_rep, digit_char, num_to_string};
use crate::helpers::{
    duration_brief_spec, estimate_remaining_from, estimate_secs, estimate_undefined, percent_done,
    percent_done_spec,
};
use crate::inner::{elapsed_millis, elapsed_since, wall_clock_millis};
use crate::Model;

verus! {

/// A model that concatenates a pair of strings to render the progress
/// bar: for example, a fixed description of the operation, and the name
/// of the file currently being processed.
pub struct StringPair {
    /// The fixed first part of the line.
    pub prefix: String,
    /// The changing second part of the line.
    pub suffix: String,
}

impl StringPair {
    /// Construct a new StringPair model from initial values for the two
    /// strings.
    pub fn new(prefix: &str, suffix: &str) -> (r: StringPair)
        ensures
            r.prefix@ == prefix@,
            r.suffix@ == suffix@,
    {
        StringPair { prefix: prefix.to_owned(), suffix: suffix.to_owned() }
    }

    /// Update the second string. Typically this is called from a callback
    /// passed to [`crate::View::update`].
    pub fn set_suffix(&mut self, suffix: &str)
        ensures
            final(self).prefix == old(self).prefix,
            final(self).suffix@ == suffix@,
    {
        self.suffix = suffix.to_owned();
    }
}

impl Model for StringPair {
    fn render(&mut self, _width: usize) -> (r: String)
        ensures
            r@ == old(self).prefix@ + old(self).suffix@,
            *final(self) == *old(self),
    {
        let mut r = self.prefix.clone();
        r.append(self.suffix.as_str());
        r
    }
}

/// Two decimal digits, zero padded.
pub open spec fn two_digits(n: nat) -> Seq<char> {
    seq![digit_char(n / 10), digit_char(n % 10)]
}

/// Render `n < 100` as exactly two digits, zero padded.
fn two_digits_string(n: u64) -> (s: String)
    requires
        n < 100,
    ensures
        s@ =~= two_digits(n as nat),
{
    let mut s = crate::ansi::digit_str(n / 10).to_owned();
    s.append(crate::ansi::digit_str(n % 10));
    s
}

/// A duration of `secs` seconds in clock form: "h:mm:ss" from an hour up,
/// else "m:ss" with the minutes taken modulo one hour.
pub open spec fn format_duration_spec(secs: nat) -> Seq<char> {
    if secs >= 3600 {
        dec_rep(secs / 3600) + seq![':'] + two_digits((secs / 60) % 60) + seq![':'] + two_digits(
            secs % 60,
        )
    } else {
        dec_rep((secs / 60) % 60) + seq![':'] + two_digits(secs % 60)
    }
}

/// Render a duration of `secs` seconds as "h:mm:ss" or "m:ss".
fn format_duration(secs: u64) -> (s: String)
    ensures
        s@ == format_duration_spec(secs as nat),
{
    proof {
        reveal_strlit(":");
    }
    if secs >= 3600 {
        let mut s = num_to_string(secs / 3600);
        s.append(":");
        s.append(two_digits_string((secs / 60) % 60).as_str());
        s.append(":");
        s.append(two_digits_string(secs % 60).as_str());
        proof {
            assert(s@ =~= format_duration_spec(secs as nat));
        }
        s
    } else {
        let mut s = num_to_string((secs / 60) % 60);
        s.append(":");
        s.append(two_digits_string(secs % 60).as_str());
        proof {
            assert(s@ =~= format_duration_spec(secs as nat));
        }
        s
    }
}

/// What [`LinearModel`] paints: the message, the counts, the percentage,
/// and the estimate text.
pub open spec fn linear_render_spec(
    message: Seq<char>,
    done: nat,
    total: nat,
    est: Seq<char>,
) -> Seq<char> {
    message + seq![':', ' '] + dec_rep(done) + seq!['/'] + dec_rep(total) + seq![',', ' ']
        + percent_done_spec(done, total) + seq![',', ' '] + est + seq![
        ' ',
        'r',
        'e',
        'm',
        'a',
        'i',
        'n',
        'i',
        'n',
        'g',
    ]
}

/// The estimate text in a [`LinearModel`] line: the extrapolated time
/// where one is defined, else a placeholder.
pub open spec fn linear_estimate_text(elapsed: nat, done: nat, total: nat) -> Seq<char> {
    if estimate_undefined(elapsed, done, total) {
        seq!['?', '?']
    } else {
        duration_brief_spec(estimate_secs(elapsed, done, total))
    }
}

/// A model for completion of a number of approximately equal-sized tasks,
/// rendered as a percentage completion with an extrapolated time to
/// completion:
///
/// ```text
/// Counting raindrops: 68/99, 68.7%, 3 sec remaining
/// ```
pub struct LinearModel {
    /// How many items are done.
    pub done: usize,
    /// How many items are expected in total.
    pub total: usize,
    /// The fixed description of the work.
    pub message: String,
    /// When the work started, in wall-clock milliseconds.
    pub start_millis: u64,
}

impl LinearModel {
    /// Construct a new model with a description and the number of total
    /// work items, starting the clock now.
    pub fn new(message: &str, total: usize) -> (r: LinearModel)
        ensures
            r.done == 0,
            r.total == total,
            r.message@ == message@,
    {
        LinearModel {
            done: 0,
            total,
            message: message.to_owned(),
            start_millis: wall_clock_millis(),
        }
    }

    /// Update the total amount of expected work.
    pub fn set_total(&mut self, total: usize)
        ensures
            *final(self) == (LinearModel { total, ..*old(self) }),
    {
        self.total = total
    }

    /// Update the amount of work done. This should normally be called
    /// from a callback passed to [`crate::View::update`].
    pub fn set_done(&mut self, done: usize)
        ensures
            *final(self) == (LinearModel { done, ..*old(self) }),
    {
        self.done = done
    }

    /// Update the amount of work done by an increment, typically 1.
    pub fn increment(&mut self, i: usize)
        requires
            old(self).done + i <= usize::MAX,
        ensures
            *final(self) == (LinearModel { done: (old(self).done + i) as usize, ..*old(self) }),
    {
        self.done = self.done + i
    }
}

impl Model for LinearModel {
    fn render(&mut self, _width: usize) -> (r: String)
        ensures
            *final(self) == *old(self),
            exists|elapsed: u64|
                r@ == linear_render_spec(
                    old(self).message@,
                    old(self).done as nat,
                    old(self).total as nat,
                    #[trigger] linear_estimate_text(
                        elapsed as nat,
                        old(self).done as nat,
                        old(self).total as nat,
                    ),
                ),
    {
        proof {
            reveal_strlit(": ");
            reveal_strlit("/");
            reveal_strlit(", ");
            reveal_strlit("??");
            reveal_strlit(" remaining");
        }
        let now = wall_clock_millis();
        let elapsed = elapsed_millis(now, self.start_millis);
        let est = match estimate_remaining_from(elapsed, self.done, self.total) {
            Option::Some(e) => e,
            Option::None => "??".to_owned(),
        };
        proof {
            assert(est@ == linear_estimate_text(
                elapsed as nat,
                self.done as nat,
                self.total as nat,
            ));
        }
        let mut r = self.message.clone();
        r.append(": ");
        r.append(num_to_string(self.done as u64).as_str());
        r.append("/");
        r.append(num_to_string(self.total as u64).as_str());
        r.append(", ");
        r.append(percent_done(self.done, self.total).as_str());
        r.append(", ");
        r.append(est.as_str());
        r.append(" remaining");
        proof {
            assert(r@ =~= linear_render_spec(
                self.message@,
                self.done as nat,
                self.total as nat,
                est@,
            ));
        }
        r
    }
}

/// What [`UnboundedModel`] paints: the message, the count, and the
/// elapsed time.
pub open spec fn unbounded_render_spec(message: Seq<char>, done: nat, secs: nat) -> Seq<char> {
    message + seq![':', ' '] + dec_rep(done) + seq![' ', 'i', 'n', ' '] + format_duration_spec(
        secs,
    )
}

/// A model that counts up the amount of work done, with no known total,
/// showing the count and the elapsed time:
///
/// ```text
/// Counting raindrops: 68 in 0:03
/// ```
pub struct UnboundedModel {
    /// The fixed description of the work.
    pub message: String,
    /// How many items are done.
    pub done: usize,
    /// When the work started, in wall-clock milliseconds.
    pub start_millis: u64,
}

impl UnboundedModel {
    /// Construct a model with a message describing the type of work being
    /// done, starting the clock now.
    pub fn new(message: &str) -> (r: UnboundedModel)
        ensures
            r.done == 0,
            r.message@ == message@,
    {
        UnboundedModel { message: message.to_owned(), done: 0, start_millis: wall_clock_millis() }
    }

    /// Update the amount of work done. This should normally be called
    /// from a callback passed to [`crate::View::update`].
    pub fn set_done(&mut self, done: usize)
        ensures
            *final(self) == (UnboundedModel { done, ..*old(self) }),
    {
        self.done = done
    }

    /// Update the amount of work done by an increment, typically 1.
    pub fn increment(&mut self, i: usize)
        requires
            old(self).done + i <= usize::MAX,
        ensures
            *final(self) == (UnboundedModel { done: (old(self).done + i) as usize, ..*old(self) }),
    {
        self.done = self.done + i
    }
}

impl Model for UnboundedModel {
    fn render(&mut self, _width: usize) -> (r: String)
        ensures
            *final(self) == *old(self),
            exists|secs: u64|
                r@ == #[trigger] unbounded_render_spec(
                    old(self).message@,
                    old(self).done as nat,
                    secs as nat,
                ),
    {
        proof {
            reveal_strlit(": ");
            reveal_strlit(" in ");
        }
        let now = wall_clock_millis();
        let elapsed = elapsed_millis(now, self.start_millis);
        let secs = elapsed / 1000;
        let mut r = self.message.clone();
        r.append(": ");
        r.append(num_to_string(self.done as u64).as_str());
        r.append(" in ");
        r.append(format_duration(secs).as_str());
        proof {
            assert(r@ =~= unbounded_render_spec(self.message@, self.done as nat, secs as nat));
        }
        r
    }
}

/// A model that stores any user-provided value, and renders by calling a
/// function provided in the constructor.
///
/// For many simple cases this avoids any need to declare a model type:
/// the [`crate::View::new`] call can construct a `BasicModel` in line,
/// giving an initial value and a render function.
pub struct BasicModel<T, R> where R: Fn(&T) -> String {
    /// The current inner value of the model.
    pub(crate) value: T,
    render_fn: R,
}

impl<T, R> BasicModel<T, R> where R: Fn(&T) -> String {
    /// The render function can be called on any value.
    #[verifier::type_invariant]
    spec fn render_fn_callable(self) -> bool {
        forall|m: &T| #[trigger] self.render_fn.requires((m,))
    }

    /// The current inner value, for contracts.
    pub closed spec fn spec_value(self) -> T {
        self.value
    }

    /// The stored render function, for contracts.
    pub closed spec fn spec_render_fn(self) -> R {
        self.render_fn
    }

    /// Construct a new BasicModel.
    ///
    /// `value` is the initial inner value of the model: any type, but
    /// typically an integer, a string, or a tuple of simple values.
    /// `render_fn` renders it to the string to be drawn in the progress
    /// bar.
    pub fn new(value: T, render_fn: R) -> (r: BasicModel<T, R>)
        requires
            forall|m: &T| #[trigger] render_fn.requires((m,)),
        ensures
            r.spec_value() == value,
    {
        BasicModel { value, render_fn }
    }

    /// Read the current inner value.
    pub fn value(&self) -> (v: &T)
        ensures
            v == &self.spec_value(),
    {
        &self.value
    }

    /// Replace the inner value.
    pub fn set_value(&mut self, value: T)
        ensures
            final(self).spec_value() == value,
    {
        proof {
            use_type_invariant(&*self);
        }
        self.value = value;
    }
}

impl<T, R> Model for BasicModel<T, R> where R: Fn(&T) -> String {
    fn render(&mut self, _width: usize) -> (r: String)
        ensures
            *final(self) == *old(self),
            exists|m: &T|
                #[trigger] call_ensures(old(self).spec_render_fn(), (m,), r) && *m == old(
                    self,
                ).spec_value(),
    {
        proof {
            use_type_invariant(&*self);
        }
        let r = (self.render_fn)(&self.value);
        proof {
            assert(call_ensures(self.spec_render_fn(), (&self.value,), r));
        }
        r
    }
}

} // verus!
