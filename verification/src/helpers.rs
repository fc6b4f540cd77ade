//! Helpful functions for drawing progress bars.

use vstd::prelude::*;
use vstd::string::StrSliceExecFns;
use vstd::string::StringExecFns;

use crate::ansi::{dec_rep, digit_char, num_to_string};

use crate::inner::wall_clock_millis;

verus! {

/// A short rendering of a duration given in seconds: whole minutes from
/// two minutes up, else whole seconds.
pub open spec fn duration_brief_spec(secs: nat) -> Seq<char> {
    if secs >= 120 {
        dec_rep(secs / 60) + seq![' ', 'm', 'i', 'n']
    } else {
        dec_rep(secs) + seq![' ', 's', 'e', 'c']
    }
}

/// Render a duration of `secs` seconds as "33 sec" or "12 min".
fn duration_brief(secs: u64) -> (s: String)
    ensures
        s@ == duration_brief_spec(secs as nat),
{
    if secs >= 120 {
        proof {
            reveal_strlit(" min");
        }
        let mut s = num_to_string(secs / 60);
        s.append(" min");
        proof {
            assert(s@ =~= duration_brief_spec(secs as nat));
        }
        s
    } else {
        proof {
            reveal_strlit(" sec");
        }
        let mut s = num_to_string(secs);
        s.append(" sec");
        proof {
            assert(s@ =~= duration_brief_spec(secs as nat));
        }
        s
    }
}

/// No estimate can be made: nothing is done yet, nothing is expected at
/// all, more is done than expected, or no time has passed to extrapolate
/// from.
pub open spec fn estimate_undefined(elapsed_millis: nat, done: nat, total: nat) -> bool {
    total == 0 || done == 0 || done > total || elapsed_millis == 0
}

/// The linear extrapolation itself, in whole seconds, saturating at the
/// largest representable value: the elapsed time, scaled by the ratio of
/// remaining work to finished work.
pub open spec fn estimate_secs(elapsed_millis: nat, done: nat, total: nat) -> nat {
    let est = ((elapsed_millis as int) * (total - done) / (done as int)) / 1000;
    if est > u64::MAX {
        u64::MAX as nat
    } else {
        est as nat
    }
}

/// Estimate the remaining time by linear extrapolation, given how many
/// milliseconds have elapsed since the start and how much of the work is
/// done. Returns a short rendering like "33 sec" or "12 min", or nothing
/// when no estimate can be made.
pub fn estimate_remaining_from(elapsed_millis: u64, done: usize, total: usize) -> (r: Option<
    String,
>)
    ensures
        r is None <==> estimate_undefined(elapsed_millis as nat, done as nat, total as nat),
        r matches Option::Some(s) ==> s@ == duration_brief_spec(
            estimate_secs(elapsed_millis as nat, done as nat, total as nat),
        ),
{
    if total == 0 || done == 0 || done > total || elapsed_millis == 0 {
        return Option::None;
    }
    let elapsed_wide = elapsed_millis as u128;
    let remaining_wide = (total - done) as u128;
    let done_wide = done as u128;
    proof {
        assert(elapsed_wide * remaining_wide <= u128::MAX) by (nonlinear_arith)
            requires
                elapsed_wide < 0x10000000000000000,
                remaining_wide < 0x10000000000000000,
        ;
    }
    let est_millis = elapsed_wide * remaining_wide / done_wide;
    let est_secs_wide = est_millis / 1000;
    let est_secs: u64 = if est_secs_wide > u64::MAX as u128 {
        u64::MAX
    } else {
        est_secs_wide as u64
    };
    Option::Some(duration_brief(est_secs))
}

/// Estimate by linear extrapolation the time remaining for a task started
/// at `start_millis` on the wall clock, with `done` of `total` items
/// complete.
///
/// The result is in the format "33 sec" or "12 min". If the remaining
/// time cannot be estimated, returns nothing. The wall clock is read
/// afresh on every call; whatever it reads, the result is the
/// extrapolation from the elapsed time it implies.
pub fn estimate_remaining(start_millis: u64, done: usize, total: usize) -> (r: Option<String>)
    ensures
        exists|elapsed: u64|
            {
                &&& (r is None <==> #[trigger] estimate_undefined(
                    elapsed as nat,
                    done as nat,
                    total as nat,
                ))
                &&& (r matches Option::Some(s) ==> s@ == duration_brief_spec(
                    estimate_secs(elapsed as nat, done as nat, total as nat),
                ))
            },
{
    let now = wall_clock_millis();
    let elapsed = crate::inner::elapsed_millis(now, start_millis);
    let r = estimate_remaining_from(elapsed, done, total);
    proof {
        assert(r is None <==> estimate_undefined(elapsed as nat, done as nat, total as nat));
    }
    r
}

/// The rendering of the percentage of work complete, to one decimal
/// place, rounding half up — or "??%" when it is not meaningful because
/// nothing is expected or more is done than expected.
pub open spec fn percent_done_spec(done: nat, total: nat) -> Seq<char> {
    if total == 0 || done > total {
        seq!['?', '?', '%']
    } else {
        let permille = (2000 * done + total) / (2 * total);
        dec_rep(permille / 10) + seq!['.', digit_char(permille % 10), '%']
    }
}

/// Return a string representation of the percentage of work completed,
/// such as "50.0%", or "??%" when it cannot be computed.
pub fn percent_done(done: usize, total: usize) -> (s: String)
    ensures
        s@ == percent_done_spec(done as nat, total as nat),
{
    if total == 0 || done > total {
        proof {
            reveal_strlit("??%");
        }
        let s = "??%".to_owned();
        proof {
            assert(s@ =~= percent_done_spec(done as nat, total as nat));
        }
        s
    } else {
        let done_wide = done as u128;
        let total_wide = total as u128;
        proof {
            assert(2000 * done_wide + total_wide <= u128::MAX) by (nonlinear_arith)
                requires
                    done_wide < 0x10000000000000000,
                    total_wide < 0x10000000000000000,
            ;
        }
        let permille_wide = (2000 * done_wide + total_wide) / (2 * total_wide);
        proof {
            assert(permille_wide <= 1000) by (nonlinear_arith)
                requires
                    total_wide > 0,
                    done_wide <= total_wide,
                    permille_wide == (2000 * done_wide + total_wide) / (2 * total_wide),
            ;
        }
        let permille = permille_wide as u64;
        proof {
            reveal_strlit(".");
            reveal_strlit("%");
        }
        let mut s = num_to_string(permille / 10);
        s.append(".");
        s.append(crate::ansi::digit_str(permille % 10));
        s.append("%");
        proof {
            assert(s@ =~= percent_done_spec(done as nat, total as nat));
        }
        s
    }
}

} // verus!
