//! A small semantic model of an ANSI terminal, rich enough to interpret
//! the byte streams this library emits and to state their net visual
//! effect: which line the cursor ends on, and which lines still show
//! content.
//!
//! The model tracks lines, not columns: the cursor's line, the set of
//! lines on which visible characters have been written, and the state of
//! a control sequence being read. Control sequences collect their numeric
//! parameter and act on their final letter; the cursor-up sequence moves
//! the cursor up by its parameter, and the clear-to-end-of-screen
//! sequence unmarks every line from the cursor down.

use vstd::prelude::*;

use crate::ansi::{dec_rep, digit_char, esc, move_to_start_of_line, move_up_lines, newline_count};

verus! {

/// Is `c` a decimal digit?
pub open spec fn is_digit(c: char) -> bool {
    c == '0' || c == '1' || c == '2' || c == '3' || c == '4' || c == '5' || c == '6' || c == '7'
        || c == '8' || c == '9'
}

/// The numeric value of a digit character; other characters count as
/// zero.
pub open spec fn digit_val(c: char) -> nat {
    if c == '1' {
        1
    } else if c == '2' {
        2
    } else if c == '3' {
        3
    } else if c == '4' {
        4
    } else if c == '5' {
        5
    } else if c == '6' {
        6
    } else if c == '7' {
        7
    } else if c == '8' {
        8
    } else if c == '9' {
        9
    } else {
        0
    }
}

/// The number spelled by a sequence of digit characters.
pub open spec fn digits_value(s: Seq<char>) -> nat
    decreases s.len(),
{
    if s.len() == 0 {
        0
    } else {
        digits_value(s.drop_last()) * 10 + digit_val(s.last())
    }
}

/// Reading the decimal rendering of a number back gives the number.
pub proof fn lemma_dec_rep_value(n: nat)
    ensures
        digits_value(dec_rep(n)) == n,
    decreases n,
{
    reveal_with_fuel(digits_value, 2);
    if n < 10 {
        assert(dec_rep(n) =~= seq![digit_char(n)]);
        assert(dec_rep(n).drop_last() =~= Seq::<char>::empty());
        assert(dec_rep(n).last() == digit_char(n));
        assert(digit_val(digit_char(n)) == n);
    } else {
        lemma_dec_rep_value(n / 10);
        assert(dec_rep(n).drop_last() =~= dec_rep(n / 10));
        assert(dec_rep(n).last() == digit_char(n % 10));
    }
}

/// Every character of a decimal rendering is a digit.
pub proof fn lemma_dec_rep_digits(n: nat)
    ensures
        forall|i: int| 0 <= i < dec_rep(n).len() ==> is_digit(#[trigger] dec_rep(n)[i]),
    decreases n,
{
    if n < 10 {
    } else {
        lemma_dec_rep_digits(n / 10);
        assert(forall|i: int|
            0 <= i < dec_rep(n / 10).len() ==> #[trigger] dec_rep(n)[i] == dec_rep(n / 10)[i]);
    }
}

/// The state of the modelled terminal.
pub struct Terminal {
    /// The line the cursor is on, counted from wherever interpretation
    /// started.
    pub row: int,
    /// The lines on which visible content has been written.
    pub marked: Set<int>,
    /// The numeric parameter of a control sequence being read, once an
    /// escape character has arrived and until the sequence's final
    /// letter.
    pub pending: Option<Seq<char>>,
}

/// A character that may appear inside a control sequence before its
/// final letter.
pub open spec fn param_char(c: char) -> bool {
    is_digit(c) || c == '[' || c == '?' || c == ';'
}

/// What a complete control sequence with parameter `params` and final
/// letter `c` does: `F` moves the cursor up and home, `J` erases every
/// line from the cursor down, and the rest — homing the column, toggling
/// line wrap, styling — does not change what this model tracks.
pub open spec fn apply_control(t: Terminal, params: Seq<char>, c: char) -> Terminal {
    if c == 'F' {
        Terminal { row: t.row - digits_value(params), marked: t.marked, pending: Option::None }
    } else if c == 'J' {
        Terminal {
            row: t.row,
            marked: Set::new(|r: int| t.marked.contains(r) && r < t.row),
            pending: Option::None,
        }
    } else {
        Terminal { row: t.row, marked: t.marked, pending: Option::None }
    }
}

/// One character arrives at the terminal.
pub open spec fn step(t: Terminal, c: char) -> Terminal {
    match t.pending {
        Option::Some(params) => {
            if param_char(c) {
                Terminal {
                    row: t.row,
                    marked: t.marked,
                    pending: Option::Some(
                        if is_digit(c) {
                            params.push(c)
                        } else {
                            params
                        },
                    ),
                }
            } else {
                apply_control(t, params, c)
            }
        },
        Option::None => {
            if c == esc() {
                Terminal { row: t.row, marked: t.marked, pending: Option::Some(Seq::empty()) }
            } else if c == '\n' {
                Terminal { row: t.row + 1, marked: t.marked, pending: Option::None }
            } else {
                Terminal { row: t.row, marked: t.marked.insert(t.row), pending: Option::None }
            }
        },
    }
}

/// The terminal after the whole stream `s` has arrived.
pub open spec fn interp(s: Seq<char>, t: Terminal) -> Terminal
    decreases s.len(),
{
    if s.len() == 0 {
        t
    } else {
        step(interp(s.drop_last(), t), s.last())
    }
}

/// Interpreting a concatenation interprets the parts in order.
pub proof fn lemma_interp_concat(a: Seq<char>, b: Seq<char>, t: Terminal)
    ensures
        interp(a + b, t) == interp(b, interp(a, t)),
    decreases b.len(),
{
    if b.len() == 0 {
        assert(a + b =~= a);
    } else {
        lemma_interp_concat(a, b.drop_last(), t);
        assert((a + b).drop_last() =~= a + b.drop_last());
        assert((a + b).last() == b.last());
    }
}

/// A sequence of digits arriving mid-control-sequence is collected into
/// the parameter and changes nothing else.
pub proof fn lemma_interp_digits(ds: Seq<char>, acc: Seq<char>, t: Terminal)
    requires
        t.pending == Option::Some(acc),
        forall|i: int| 0 <= i < ds.len() ==> is_digit(#[trigger] ds[i]),
    ensures
        interp(ds, t) == (Terminal {
            row: t.row,
            marked: t.marked,
            pending: Option::Some(acc + ds),
        }),
    decreases ds.len(),
{
    if ds.len() == 0 {
        assert(acc + ds =~= acc);
        assert(t == (Terminal { row: t.row, marked: t.marked, pending: Option::Some(acc + ds) }));
    } else {
        lemma_interp_digits(ds.drop_last(), acc, t);
        assert(is_digit(ds.last()));
        assert((acc + ds.drop_last()).push(ds.last()) =~= acc + ds);
    }
}

/// The move-to-column-1 sequence leaves this model's state unchanged.
pub proof fn lemma_interp_move_to_start(t: Terminal)
    requires
        t.pending is None,
    ensures
        interp(move_to_start_of_line(), t) == t,
{
    let s0 = Seq::<char>::empty();
    let s1 = seq![esc()];
    let s2 = seq![esc(), '['];
    let s3 = seq![esc(), '[', '1'];
    let s4 = move_to_start_of_line();
    assert(s4.drop_last() =~= s3);
    assert(s3.drop_last() =~= s2);
    assert(s2.drop_last() =~= s1);
    assert(s1.drop_last() =~= s0);
    assert(s4 =~= seq![esc(), '[', '1', 'G']);
    assert(interp(s0, t) == t);
    let t1 = step(t, esc());
    let t2 = step(t1, '[');
    let t3 = step(t2, '1');
    let t4 = step(t3, 'G');
    assert(interp(s1, t) == t1);
    assert(interp(s2, t) == t2);
    assert(interp(s3, t) == t3);
    assert(interp(s4, t) == t4);
    assert(t4 == t);
}

/// A control sequence of the shape `ESC [ ? 7 x` — the line-wrap
/// toggles — leaves this model's state unchanged.
pub proof fn lemma_interp_wrap_toggle(c: char, t: Terminal)
    requires
        t.pending is None,
        c == 'l' || c == 'h',
    ensures
        interp(seq![esc(), '[', '?', '7', c], t) == t,
{
    let s1 = seq![esc()];
    let s2 = seq![esc(), '['];
    let s3 = seq![esc(), '[', '?'];
    let s4 = seq![esc(), '[', '?', '7'];
    let s5 = seq![esc(), '[', '?', '7', c];
    assert(s5.drop_last() =~= s4);
    assert(s4.drop_last() =~= s3);
    assert(s3.drop_last() =~= s2);
    assert(s2.drop_last() =~= s1);
    assert(s1.drop_last() =~= Seq::<char>::empty());
    assert(interp(Seq::<char>::empty(), t) == t);
    let t1 = step(t, esc());
    let t2 = step(t1, '[');
    let t3 = step(t2, '?');
    let t4 = step(t3, '7');
    let t5 = step(t4, c);
    assert(interp(s1, t) == t1);
    assert(interp(s2, t) == t2);
    assert(interp(s3, t) == t3);
    assert(interp(s4, t) == t4);
    assert(interp(s5, t) == t5);
    assert(t5 == t);
}

/// The clear-to-end-of-screen sequence erases every line from the cursor
/// down and moves nothing.
pub proof fn lemma_interp_clear_eos(t: Terminal)
    requires
        t.pending is None,
    ensures
        interp(crate::ansi::clear_to_end_of_screen(), t) == (Terminal {
            row: t.row,
            marked: Set::new(|r: int| t.marked.contains(r) && r < t.row),
            pending: Option::None,
        }),
{
    let s1 = seq![esc()];
    let s2 = seq![esc(), '['];
    let s3 = seq![esc(), '[', '0'];
    let s4 = crate::ansi::clear_to_end_of_screen();
    assert(s4.drop_last() =~= s3);
    assert(s3.drop_last() =~= s2);
    assert(s2.drop_last() =~= s1);
    assert(s1.drop_last() =~= Seq::<char>::empty());
    assert(interp(Seq::<char>::empty(), t) == t);
    let t1 = step(t, esc());
    let t2 = step(t1, '[');
    let t3 = step(t2, '0');
    let t4 = step(t3, 'J');
    assert(interp(s1, t) == t1);
    assert(interp(s2, t) == t2);
    assert(interp(s3, t) == t3);
    assert(interp(s4, t) == t4);
    assert(t4.marked =~= Set::new(|r: int| t.marked.contains(r) && r < t.row));
}

/// The move-up sequence moves the cursor up by exactly its parameter.
pub proof fn lemma_interp_move_up(n: nat, t: Terminal)
    requires
        t.pending is None,
    ensures
        interp(move_up_lines(n), t) == (Terminal {
            row: t.row - n,
            marked: t.marked,
            pending: Option::None,
        }),
{
    let s2 = seq![esc(), '['];
    let s1 = seq![esc()];
    assert(s2.drop_last() =~= s1);
    assert(s1.drop_last() =~= Seq::<char>::empty());
    assert(interp(Seq::<char>::empty(), t) == t);
    let ta = step(t, esc());
    let tb = step(ta, '[');
    assert(interp(s1, t) == ta);
    let t2 = interp(s2, t);
    assert(t2 == tb);
    assert(t2 == (Terminal { row: t.row, marked: t.marked, pending: Option::Some(Seq::empty()) }));
    lemma_dec_rep_digits(n);
    lemma_interp_digits(dec_rep(n), Seq::empty(), t2);
    let t3 = interp(dec_rep(n), t2);
    assert(Seq::<char>::empty() + dec_rep(n) =~= dec_rep(n));
    assert(t3.pending == Option::Some(dec_rep(n)));
    lemma_interp_concat(s2, dec_rep(n), t);
    assert(interp(s2 + dec_rep(n), t) == t3);
    lemma_interp_concat(s2 + dec_rep(n), seq!['F'], t);
    assert((seq!['F']).drop_last() =~= Seq::<char>::empty());
    assert(interp(Seq::<char>::empty(), t3) == t3);
    assert(interp(seq!['F'], t3) == step(t3, 'F'));
    lemma_dec_rep_value(n);
    assert(move_up_lines(n) == s2 + dec_rep(n) + seq!['F']);
    assert(s2 + dec_rep(n) + seq!['F'] =~= (s2 + dec_rep(n)) + seq!['F']);
}

/// Plain text — no escape characters — moves the cursor down one line
/// per line terminator, and writes only on the lines it crosses.
pub proof fn lemma_interp_plain(text: Seq<char>, t: Terminal)
    requires
        t.pending is None,
        forall|i: int| 0 <= i < text.len() ==> #[trigger] text[i] != esc(),
    ensures
        interp(text, t).pending is None,
        interp(text, t).row == t.row + newline_count(text),
        forall|r: int|
            #[trigger] interp(text, t).marked.contains(r) ==> t.marked.contains(r) || (t.row <= r
                <= t.row + newline_count(text)),
        forall|r: int| t.marked.contains(r) ==> #[trigger] interp(text, t).marked.contains(r),
    decreases text.len(),
{
    if text.len() == 0 {
    } else {
        lemma_interp_plain(text.drop_last(), t);
        assert(forall|i: int|
            0 <= i < text.drop_last().len() ==> #[trigger] text.drop_last()[i] != esc());
        assert(text.last() != esc());
    }
}

} // verus!
