//! ANSI escape sequences for painting and erasing progress bars.
//!
//! Everything here is pure: given the text to draw and the previous cursor
//! offset, these functions build the exact byte sequence to emit and compute
//! the new cursor offset. The sequences themselves are fixed string
//! constants; the interesting logic is how they are composed.

use vstd::prelude::*;
use vstd::string::StrSliceExecFns;
use vstd::string::StringExecFns;

verus! {

/// The escape character that introduces every control sequence.
pub open spec fn esc() -> char {
    '\u{1b}'
}

/// Move the cursor to column 1 of the current line.
pub open spec fn move_to_start_of_line() -> Seq<char> {
    seq![esc(), '[', '1', 'G']
}

/// Stop the terminal from wrapping long lines while the bar is drawn.
pub open spec fn disable_line_wrap() -> Seq<char> {
    seq![esc(), '[', '?', '7', 'l']
}

/// Re-enable normal line wrapping.
pub open spec fn enable_line_wrap() -> Seq<char> {
    seq![esc(), '[', '?', '7', 'h']
}

/// Erase everything from the cursor to the end of the screen.
pub open spec fn clear_to_end_of_screen() -> Seq<char> {
    seq![esc(), '[', '0', 'J']
}

/// The character value of a single decimal digit.
pub open spec fn digit_char(d: nat) -> char {
    if d == 0 {
        '0'
    } else if d == 1 {
        '1'
    } else if d == 2 {
        '2'
    } else if d == 3 {
        '3'
    } else if d == 4 {
        '4'
    } else if d == 5 {
        '5'
    } else if d == 6 {
        '6'
    } else if d == 7 {
        '7'
    } else if d == 8 {
        '8'
    } else {
        '9'
    }
}

/// The usual decimal rendering of `n`, most significant digit first.
pub open spec fn dec_rep(n: nat) -> Seq<char>
    decreases n,
{
    if n < 10 {
        seq![digit_char(n)]
    } else {
        dec_rep(n / 10).push(digit_char(n % 10))
    }
}

/// Move the cursor up `n` lines and to column 1: `ESC [ n F`.
pub open spec fn move_up_lines(n: nat) -> Seq<char> {
    seq![esc(), '['] + dec_rep(n) + seq!['F']
}

/// The sequence that puts the cursor at the start of the region to repaint:
/// straight to column 1 when nothing is painted yet, otherwise up over the
/// previously painted lines.
pub open spec fn paint_prefix(prev: Option<nat>) -> Seq<char> {
    match prev {
        Option::None => move_to_start_of_line(),
        Option::Some(n) => move_up_lines(n),
    }
}

/// The cursor-homing prefix used when erasing: identical to the paint prefix
/// except that an offset of zero needs no upward movement at all.
pub open spec fn clear_prefix(n: nat) -> Seq<char> {
    if n > 0 {
        move_up_lines(n)
    } else {
        move_to_start_of_line()
    }
}

/// Text with one trailing line terminator removed, if it has one.
pub open spec fn strip_final_newline(t: Seq<char>) -> Seq<char> {
    if t.len() > 0 && t.last() == '\n' {
        t.drop_last()
    } else {
        t
    }
}

/// How many line terminators `s` contains.
pub open spec fn newline_count(s: Seq<char>) -> nat
    decreases s.len(),
{
    if s.len() == 0 {
        0
    } else {
        newline_count(s.drop_last()) + if s.last() == '\n' {
            1nat
        } else {
            0nat
        }
    }
}

/// The full byte sequence of one repaint: home the cursor, stop wrapping,
/// erase the old content to the end of the screen, draw the new text, and
/// re-enable wrapping. A single trailing line terminator in `text` is
/// tolerated and dropped.
pub open spec fn compose_paint(text: Seq<char>, prev: Option<nat>) -> Seq<char> {
    paint_prefix(prev) + disable_line_wrap() + clear_to_end_of_screen() + strip_final_newline(text)
        + enable_line_wrap()
}

/// The cursor offset left behind by painting `text`: the number of interior
/// line terminators, i.e. the number of painted lines minus one.
pub open spec fn paint_offset(text: Seq<char>) -> nat {
    newline_count(strip_final_newline(text))
}

/// The full byte sequence that erases a painted bar whose cursor offset is
/// `n`: home the cursor over the painted region, erase to the end of the
/// screen, and re-enable wrapping.
pub open spec fn compose_clear(n: nat) -> Seq<char> {
    clear_prefix(n) + clear_to_end_of_screen() + enable_line_wrap()
}

/// Move to column 1 of the current line.
pub fn move_to_start_of_line_str() -> (s: &'static str)
    ensures
        s@ =~= move_to_start_of_line(),
{
    proof {
        reveal_strlit("\u{1b}[1G");
    }
    "\u{1b}[1G"
}

/// Disable automatic wrapping of long lines.
pub fn disable_line_wrap_str() -> (s: &'static str)
    ensures
        s@ =~= disable_line_wrap(),
{
    proof {
        reveal_strlit("\u{1b}[?7l");
    }
    "\u{1b}[?7l"
}

/// Enable automatic wrapping of long lines.
pub fn enable_line_wrap_str() -> (s: &'static str)
    ensures
        s@ =~= enable_line_wrap(),
{
    proof {
        reveal_strlit("\u{1b}[?7h");
    }
    "\u{1b}[?7h"
}

/// Erase from the cursor to the end of the screen.
pub fn clear_to_end_of_screen_str() -> (s: &'static str)
    ensures
        s@ =~= clear_to_end_of_screen(),
{
    proof {
        reveal_strlit("\u{1b}[0J");
    }
    "\u{1b}[0J"
}

/// One decimal digit as a string slice.
pub(crate) fn digit_str(d: u64) -> (s: &'static str)
    requires
        d < 10,
    ensures
        s@ =~= seq![digit_char(d as nat)],
{
    proof {
        reveal_strlit("0");
        reveal_strlit("1");
        reveal_strlit("2");
        reveal_strlit("3");
        reveal_strlit("4");
        reveal_strlit("5");
        reveal_strlit("6");
        reveal_strlit("7");
        reveal_strlit("8");
        reveal_strlit("9");
    }
    if d == 0 {
        "0"
    } else if d == 1 {
        "1"
    } else if d == 2 {
        "2"
    } else if d == 3 {
        "3"
    } else if d == 4 {
        "4"
    } else if d == 5 {
        "5"
    } else if d == 6 {
        "6"
    } else if d == 7 {
        "7"
    } else if d == 8 {
        "8"
    } else {
        "9"
    }
}

/// Render `n` in decimal.
pub fn num_to_string(n: u64) -> (s: String)
    ensures
        s@ =~= dec_rep(n as nat),
    decreases n,
{
    if n < 10 {
        digit_str(n).to_owned()
    } else {
        let mut s = num_to_string(n / 10);
        s.append(digit_str(n % 10));
        s
    }
}

/// The sequence that moves the cursor up `n` lines and home, or just home
/// when `n` is zero: the prefix of every erase.
pub fn up_n_lines_and_home(n: u64) -> (s: String)
    ensures
        s@ =~= clear_prefix(n as nat),
{
    if n > 0 {
        proof {
            reveal_strlit("\u{1b}[");
            reveal_strlit("F");
        }
        let mut s = "\u{1b}[".to_owned();
        s.append(num_to_string(n).as_str());
        s.append("F");
        s
    } else {
        move_to_start_of_line_str().to_owned()
    }
}

/// The homing prefix of a repaint: `prev_offset` is the cursor offset of the
/// still-visible painted bar, or none when nothing is painted here yet.
fn paint_prefix_string(prev: Option<u64>) -> (s: String)
    ensures
        s@ =~= paint_prefix(match prev {
            Option::None => Option::<nat>::None,
            Option::Some(n) => Option::Some(n as nat),
        }),
{
    match prev {
        Option::None => move_to_start_of_line_str().to_owned(),
        Option::Some(n) => {
            proof {
                reveal_strlit("\u{1b}[");
                reveal_strlit("F");
            }
            let mut s = "\u{1b}[".to_owned();
            s.append(num_to_string(n).as_str());
            s.append("F");
            s
        },
    }
}

/// Text with one trailing line terminator removed, if it has one.
pub fn strip_final_newline_str(t: &str) -> (s: &str)
    ensures
        s@ =~= strip_final_newline(t@),
{
    let len = t.unicode_len();
    if len > 0 && t.get_char(len - 1) == '\n' {
        t.substring_char(0, len - 1)
    } else {
        t
    }
}

proof fn lemma_newline_count_take_step(s: Seq<char>, i: int)
    requires
        0 <= i < s.len(),
    ensures
        newline_count(s.take(i + 1)) == newline_count(s.take(i)) + if s[i] == '\n' {
            1nat
        } else {
            0nat
        },
{
    assert(s.take(i + 1).drop_last() =~= s.take(i));
    assert(s.take(i + 1).last() == s[i]);
}

/// Count the line terminators in `s`.
pub fn count_newlines(s: &str) -> (n: u64)
    ensures
        n == newline_count(s@),
        n <= s@.len(),
{
    let len = s.unicode_len();
    let mut n: usize = 0;
    let mut i: usize = 0;
    assert(s@.take(0) =~= Seq::<char>::empty());
    while i < len
        invariant
            i <= len,
            len == s@.len(),
            n <= i,
            n == newline_count(s@.take(i as int)),
        decreases len - i,
    {
        if s.get_char(i) == '\n' {
            n = n + 1;
        }
        proof {
            lemma_newline_count_take_step(s@, i as int);
        }
        i = i + 1;
    }
    assert(s@.take(len as int) =~= s@);
    n as u64
}

/// Build the full byte sequence of one repaint of `rendered`, together with
/// the new cursor offset it leaves behind.
pub fn insert_codes(rendered: &str, cursor_y: Option<u64>) -> (r: (String, u64))
    ensures
        r.0@ =~= compose_paint(rendered@, match cursor_y {
            Option::None => Option::<nat>::None,
            Option::Some(n) => Option::Some(n as nat),
        }),
        r.1 == paint_offset(rendered@),
{
    let body = strip_final_newline_str(rendered);
    let offset = count_newlines(body);
    let mut buf = paint_prefix_string(cursor_y);
    buf.append(disable_line_wrap_str());
    buf.append(clear_to_end_of_screen_str());
    buf.append(body);
    buf.append(enable_line_wrap_str());
    (buf, offset)
}

/// Build the full byte sequence that erases a painted bar whose cursor
/// offset is `cursor_y`.
pub fn erase_codes(cursor_y: u64) -> (r: String)
    ensures
        r@ =~= compose_clear(cursor_y as nat),
{
    let mut buf = up_n_lines_and_home(cursor_y);
    buf.append(clear_to_end_of_screen_str());
    buf.append(enable_line_wrap_str());
    buf
}

} // verus!
