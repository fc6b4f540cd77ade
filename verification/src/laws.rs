//! The headline guarantees of the repaint protocol, stated in one place.
//!
//! Each law is a proof function over the transition relations of
//! [`InnerView`]: the relations say what each operation did, and the laws
//! draw out the guarantees that the protocol promises. They hold for
//! every model, every configuration and every clock reading.

use vstd::prelude::*;

use crate::ansi::{
    clear_prefix, clear_to_end_of_screen, compose_clear, compose_paint, disable_line_wrap,
    enable_line_wrap, esc, move_to_start_of_line, move_up_lines, newline_count, paint_offset,
    paint_prefix, strip_final_newline,
};
use crate::inner::{clear_emission, elapsed_since, painted_offset, InnerView, State};
use crate::terminal::{
    interp, lemma_interp_clear_eos, lemma_interp_concat, lemma_interp_move_to_start,
    lemma_interp_move_up, lemma_interp_plain, lemma_interp_wrap_toggle, Terminal,
};
use crate::Model;

verus! {

/// A paint attempt on this transition actually painted: it was not
/// blocked, a width was available, and the rendered text differed from
/// what was already on the screen.
pub open spec fn actually_painted<M: Model>(
    pre: InnerView<M>,
    now: u64,
    w: Option<usize>,
    rendered: Seq<char>,
) -> bool {
    &&& !pre.repaint_blocked(now)
    &&& w is Some
    &&& !(pre.state matches State::Painted { last_text, .. } && last_text@ == strip_final_newline(
        rendered,
    ))
}

/// Repainting too soon after the previous paint does nothing at all:
/// however many updates arrive within one update interval, at most the
/// first one paints.
pub proof fn law_no_repaint_within_interval<M: Model>(
    pre: InnerView<M>,
    post: InnerView<M>,
    now: u64,
    w: Option<usize>,
    rendered: Seq<char>,
)
    requires
        InnerView::paint_rel(pre, post, now, w, rendered),
        pre.state matches State::Painted { last_paint, .. } && elapsed_since(now, last_paint)
            < pre.options.update_interval,
    ensures
        post == pre,
{
}

/// When a repaint attempt renders exactly the text that is already on the
/// screen, nothing is emitted and the display state does not change, even
/// if the update interval has long elapsed.
pub proof fn law_identical_render_suppressed<M: Model>(
    pre: InnerView<M>,
    post: InnerView<M>,
    now: u64,
    w: Option<usize>,
    rendered: Seq<char>,
)
    requires
        InnerView::paint_rel(pre, post, now, w, rendered),
        pre.state matches State::Painted { last_text, .. } && last_text@ == strip_final_newline(
            rendered,
        ),
    ensures
        post.emitted == pre.emitted,
        post.state == pre.state,
{
}

/// A suspended machine paints nothing, whatever the clock, the width or
/// the model say.
pub proof fn law_suspended_paints_nothing<M: Model>(
    pre: InnerView<M>,
    post: InnerView<M>,
    now: u64,
    w: Option<usize>,
    rendered: Seq<char>,
)
    requires
        InnerView::paint_rel(pre, post, now, w, rendered),
        pre.suspended,
    ensures
        post == pre,
{
}

/// A message without a final line terminator leaves the machine in the
/// incomplete-line state, and while a line is incomplete no paint attempt
/// emits anything: the bar stays away until a later message completes the
/// line.
pub proof fn law_incomplete_line_blocks_paint<M: Model>(
    pre: InnerView<M>,
    mid: InnerView<M>,
    post: InnerView<M>,
    msg: Seq<char>,
    now: u64,
    w: Option<usize>,
    rendered: Seq<char>,
)
    requires
        msg.len() > 0,
        msg.last() != '\n',
        InnerView::write_post(pre, mid, msg),
        InnerView::paint_rel(mid, post, now, w, rendered),
    ensures
        mid.state is IncompleteLine,
        post == mid,
{
}

/// An actual paint records, as the new cursor offset, exactly the number
/// of line terminators in the text it painted: the number of painted
/// lines minus one, for any number of lines including one.
pub proof fn law_paint_records_line_count<M: Model>(
    pre: InnerView<M>,
    post: InnerView<M>,
    now: u64,
    w: Option<usize>,
    rendered: Seq<char>,
)
    requires
        InnerView::paint_rel(pre, post, now, w, rendered),
        actually_painted(pre, now, w, rendered),
    ensures
        post.state matches State::Painted { cursor_offset, .. } && cursor_offset == paint_offset(
            strip_final_newline(rendered),
        ),
        post.emitted@ == pre.emitted@ + compose_paint(
            strip_final_newline(rendered),
            painted_offset(pre.state),
        ),
{
}

/// The next paint over a painted bar starts by moving the cursor up
/// exactly the recorded offset: as many lines as the painted text had
/// line terminators — not one more, not zero.
pub proof fn law_next_paint_moves_up_offset<M: Model>(
    pre: InnerView<M>,
    post: InnerView<M>,
    now: u64,
    w: Option<usize>,
    rendered: Seq<char>,
    n: u64,
)
    requires
        InnerView::paint_rel(pre, post, now, w, rendered),
        actually_painted(pre, now, w, rendered),
        pre.state matches State::Painted { cursor_offset, .. } && cursor_offset == n,
    ensures
        post.emitted@ == pre.emitted@ + (move_up_lines(n as nat) + (compose_paint(
            strip_final_newline(rendered),
            painted_offset(pre.state),
        ).skip(move_up_lines(n as nat).len() as int))),
        compose_paint(strip_final_newline(rendered), painted_offset(pre.state)).take(
            move_up_lines(n as nat).len() as int,
        ) == move_up_lines(n as nat),
{
    let body = compose_paint(strip_final_newline(rendered), painted_offset(pre.state));
    let prefix = paint_prefix(painted_offset(pre.state));
    assert(prefix == move_up_lines(n as nat));
    assert(body.take(prefix.len() as int) =~= prefix);
    assert(body =~= prefix + body.skip(prefix.len() as int));
}

/// Erasing a painted bar emits exactly the clear sequence for the
/// recorded cursor offset, which by [`law_paint_records_line_count`] is
/// the line count of the text on the screen: the erase climbs over every
/// painted line back to where the bar started, and clears from there to
/// the end of the screen.
pub proof fn law_erase_matches_painted_lines<M: Model>(
    pre: InnerView<M>,
    post: InnerView<M>,
    now: u64,
    w: Option<usize>,
    rendered: Seq<char>,
    cleared: InnerView<M>,
)
    requires
        InnerView::paint_rel(pre, post, now, w, rendered),
        actually_painted(pre, now, w, rendered),
        post.wf(),
        cleared.emitted@ == post.emitted@ + clear_emission(post.state),
    ensures
        cleared.emitted@ == pre.emitted@ + compose_paint(
            strip_final_newline(rendered),
            painted_offset(pre.state),
        ) + crate::ansi::compose_clear(newline_count(strip_final_newline(strip_final_newline(
            rendered,
        )))),
{
    assert(post.state matches State::Painted { cursor_offset, .. } && cursor_offset
        == paint_offset(strip_final_newline(rendered)));
}

/// With the capture destination — where a width answer is always
/// available — a repaint attempt on an idle, enabled, unsuspended machine
/// cannot do nothing: it lands in the painted state and emits exactly one
/// paint sequence for some rendered text. In particular, resuming such a
/// machine repaints it at once, showing whatever the model renders then,
/// without waiting for the next update.
pub proof fn law_idle_attempt_paints<M: Model>(pre: InnerView<M>, post: InnerView<M>)
    requires
        InnerView::paint_progress_post(pre, post),
        pre.options.destination is Capture,
        pre.options.progress_enabled,
        !pre.suspended,
        pre.state is Idle,
    ensures
        post.state is Painted,
        exists|text: Seq<char>|
            post.emitted@ == pre.emitted@ + #[trigger] compose_paint(text, Option::None),
{
    let (mid, now, w, rendered) = choose|
        mid: InnerView<M>,
        now: u64,
        w: Option<usize>,
        rendered: Seq<char>,
    |
        {
            &&& InnerView::init_rel(pre, mid)
            &&& #[trigger] InnerView::paint_rel(mid, post, now, w, rendered)
            &&& (pre.fake_clock matches Option::Some(t) ==> now == t)
            &&& (pre.options.destination is Capture ==> w == Option::Some(80usize))
        };
    assert(mid.state is Idle);
    assert(mid.options.progress_enabled);
    assert(!mid.repaint_blocked(now));
    assert(w is Some);
    let stripped = strip_final_newline(rendered);
    assert(painted_offset(mid.state) is None);
    assert(post.emitted@ == pre.emitted@ + compose_paint(stripped, Option::None));
}

/// Painting plain text onto a clean region moves the cursor down by
/// exactly the interior line terminators of the painted body — the
/// cursor-offset arithmetic of the state machine matches what a terminal
/// actually does — and writes only inside the painted region.
///
/// `text` here is plain: embedded styling sequences are left out of this
/// statement.
pub proof fn law_paint_advances_cursor(text: Seq<char>, t: Terminal)
    requires
        t.pending is None,
        forall|i: int| 0 <= i < text.len() ==> #[trigger] text[i] != esc(),
    ensures
        ({
            let t2 = interp(compose_paint(text, Option::None), t);
            &&& t2.pending is None
            &&& t2.row == t.row + paint_offset(text)
            &&& forall|r: int|
                r < t.row ==> (#[trigger] t2.marked.contains(r) <==> t.marked.contains(r))
            &&& forall|r: int|
                r >= t.row && #[trigger] t2.marked.contains(r) ==> r <= t.row + paint_offset(text)
        }),
{
    let body = strip_final_newline(text);
    assert(forall|i: int| 0 <= i < body.len() ==> #[trigger] body[i] != esc());
    let p1 = paint_prefix(Option::<nat>::None);
    let p2 = disable_line_wrap();
    let p3 = clear_to_end_of_screen();
    let p5 = enable_line_wrap();
    let u2 = p1 + p2;
    let u3 = u2 + p3;
    let u4 = u3 + body;
    let u5 = u4 + p5;
    assert(compose_paint(text, Option::None) == u5);
    lemma_interp_move_to_start(t);
    let t1 = interp(p1, t);
    assert(t1 == t);
    lemma_interp_concat(p1, p2, t);
    assert(p2 =~= seq![esc(), '[', '?', '7', 'l']);
    lemma_interp_wrap_toggle('l', t1);
    let t2 = interp(u2, t);
    assert(t2 == t);
    lemma_interp_concat(u2, p3, t);
    lemma_interp_clear_eos(t2);
    let t3 = interp(u3, t);
    assert(t3 == (Terminal {
        row: t.row,
        marked: Set::new(|r: int| t.marked.contains(r) && r < t.row),
        pending: Option::None,
    }));
    lemma_interp_concat(u3, body, t);
    lemma_interp_plain(body, t3);
    let t4 = interp(u4, t);
    lemma_interp_concat(u4, p5, t);
    assert(p5 =~= seq![esc(), '[', '?', '7', 'h']);
    lemma_interp_wrap_toggle('h', t4);
    let t5 = interp(u5, t);
    assert(t5 == t4);
    assert(newline_count(body) == paint_offset(text));
}

/// Erasure round-trip: painting plain text and then erasing it — with
/// the cursor offset the state machine recorded — brings the cursor back
/// to the line where the bar started and leaves no painted content on or
/// below that line, while everything above is untouched.
pub proof fn law_erasure_round_trip(text: Seq<char>, t: Terminal)
    requires
        t.pending is None,
        forall|i: int| 0 <= i < text.len() ==> #[trigger] text[i] != esc(),
    ensures
        ({
            let t2 = interp(
                compose_paint(text, Option::None) + compose_clear(paint_offset(text)),
                t,
            );
            &&& t2.row == t.row
            &&& t2.pending is None
            &&& forall|r: int| r >= t.row ==> !(#[trigger] t2.marked.contains(r))
            &&& forall|r: int|
                r < t.row ==> (#[trigger] t2.marked.contains(r) <==> t.marked.contains(r))
        }),
{
    let off = paint_offset(text);
    let paint = compose_paint(text, Option::None);
    law_paint_advances_cursor(text, t);
    let tp = interp(paint, t);
    let c1 = clear_prefix(off);
    let c2 = clear_to_end_of_screen();
    let c3 = enable_line_wrap();
    let v2 = c1 + c2;
    let v3 = v2 + c3;
    assert(compose_clear(off) == v3);
    lemma_interp_concat(paint, v3, t);
    if off > 0 {
        assert(c1 == move_up_lines(off));
        lemma_interp_move_up(off, tp);
    } else {
        assert(c1 == move_to_start_of_line());
        lemma_interp_move_to_start(tp);
    }
    let w1 = interp(c1, tp);
    assert(w1.row == t.row);
    assert(w1.marked == tp.marked);
    assert(w1.pending is None);
    lemma_interp_concat(c1, c2, tp);
    lemma_interp_clear_eos(w1);
    let w2 = interp(v2, tp);
    lemma_interp_concat(v2, c3, tp);
    assert(c3 =~= seq![esc(), '[', '?', '7', 'h']);
    lemma_interp_wrap_toggle('h', w2);
    let w3 = interp(v3, tp);
    assert(w3 == w2);
    assert(interp(paint + v3, t) == w3);
}

/// End to end: a machine with nothing painted paints a plain rendered
/// text and then erases it. What it emitted over those two steps, played
/// into any terminal, leaves the cursor on the line where the bar
/// started, leaves no content on or below that line, and touches nothing
/// above it.
pub proof fn law_machine_erasure_round_trip<M: Model>(
    pre: InnerView<M>,
    post: InnerView<M>,
    now: u64,
    w: Option<usize>,
    rendered: Seq<char>,
    cleared: InnerView<M>,
    t: Terminal,
)
    requires
        InnerView::paint_rel(pre, post, now, w, rendered),
        actually_painted(pre, now, w, rendered),
        painted_offset(pre.state) is None,
        post.wf(),
        cleared.emitted@ == post.emitted@ + clear_emission(post.state),
        t.pending is None,
        forall|i: int| 0 <= i < rendered.len() ==> #[trigger] rendered[i] != esc(),
    ensures
        ({
            let delta = cleared.emitted@.skip(pre.emitted@.len() as int);
            let t2 = interp(delta, t);
            &&& t2.row == t.row
            &&& t2.pending is None
            &&& forall|r: int| r >= t.row ==> !(#[trigger] t2.marked.contains(r))
            &&& forall|r: int|
                r < t.row ==> (#[trigger] t2.marked.contains(r) <==> t.marked.contains(r))
        }),
{
    let stripped = strip_final_newline(rendered);
    assert(forall|i: int| 0 <= i < stripped.len() ==> #[trigger] stripped[i] != esc());
    let paint = compose_paint(stripped, Option::<nat>::None);
    let off = paint_offset(stripped);
    assert(post.state matches State::Painted { cursor_offset, .. } && cursor_offset == off);
    assert(post.emitted@ == pre.emitted@ + paint);
    assert(clear_emission(post.state) == compose_clear(off));
    let delta = cleared.emitted@.skip(pre.emitted@.len() as int);
    assert(delta =~= paint + compose_clear(off));
    law_erasure_round_trip(stripped, t);
    assert(paint_offset(stripped) == off);
}

} // verus!
