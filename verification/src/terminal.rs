//! The text handed to the terminal: cursor-positioning escape sequences,
//! decimal rendering, screen clearing, and the line-discipline flag words
//! of a raw-mode read.
//!
//! Nothing here writes to the terminal. Every function returns the exact
//! characters, or the exact flag word, that the surrounding program is to
//! apply; coordinates are 1-based with the origin at the top left corner.

use vstd::prelude::*;

verus! {

/// One emission to the terminal: write `text` with the cursor first put at
/// column `x`, row `y`.
#[derive(Clone, Debug, PartialEq, Eq)]
pub struct DrawCmd {
    pub x: u16,
    pub y: u16,
    pub text: String,
}

/// The mathematical image of a [`DrawCmd`].
#[verifier::ext_equal]
pub ghost struct DrawCmdView {
    pub x: u16,
    pub y: u16,
    pub text: Seq<char>,
}

impl View for DrawCmd {
    type V = DrawCmdView;

    open spec fn view(&self) -> DrawCmdView {
        DrawCmdView { x: self.x, y: self.y, text: self.text@ }
    }
}

/// The images of a sequence of emissions.
pub open spec fn cmds_view(s: Seq<DrawCmd>) -> Seq<DrawCmdView> {
    s.map_values(|c: DrawCmd| c@)
}

/// The image of concatenated emissions is the concatenation of the images.
pub proof fn lemma_cmds_view_concat(a: Seq<DrawCmd>, b: Seq<DrawCmd>)
    ensures
        cmds_view(a + b) == cmds_view(a) + cmds_view(b),
{
    assert(cmds_view(a).len() == a.len());
    assert(cmds_view(b).len() == b.len());
    assert(cmds_view(a + b) =~= cmds_view(a) + cmds_view(b));
}

/// The decimal digit characters of `n`, most significant first, with no
/// leading zero except for `n == 0` itself.
pub open spec fn dec_rep(n: nat) -> Seq<char>
    decreases n,
{
    if n < 10 {
        seq![digit_char(n)]
    } else {
        dec_rep(n / 10).push(digit_char(n % 10))
    }
}

/// The character of one decimal digit.
pub open spec fn digit_char(d: nat) -> char {
    if d == 0 {
        '0'
    } else if d == 1 {
        '1'
    } else if d == 2 {
        '2'
    } else if d == 3 {
        '3'
    } else if d == 4 {
        '4'
    } else if d == 5 {
        '5'
    } else if d == 6 {
        '6'
    } else if d == 7 {
        '7'
    } else if d == 8 {
        '8'
    } else {
        '9'
    }
}

fn digit_str(d: u32) -> (s: &'static str)
    requires
        d < 10,
    ensures
        s@ =~= seq![digit_char(d as nat)],
{
    proof {
        reveal_strlit("0");
        reveal_strlit("1");
        reveal_strlit("2");
        reveal_strlit("3");
        reveal_strlit("4");
        reveal_strlit("5");
        reveal_strlit("6");
        reveal_strlit("7");
        reveal_strlit("8");
        reveal_strlit("9");
    }
    if d == 0 {
        "0"
    } else if d == 1 {
        "1"
    } else if d == 2 {
        "2"
    } else if d == 3 {
        "3"
    } else if d == 4 {
        "4"
    } else if d == 5 {
        "5"
    } else if d == 6 {
        "6"
    } else if d == 7 {
        "7"
    } else if d == 8 {
        "8"
    } else {
        "9"
    }
}

/// Renders `n` in decimal.
pub fn dec_string(n: u32) -> (s: String)
    ensures
        s@ == dec_rep(n as nat),
    decreases n,
{
    if n < 10 {
        String::from_str(digit_str(n))
    } else {
        proof {
            assert(n / 10 < n) by (nonlinear_arith)
                requires
                    n >= 10,
            ;
        }
        let mut s = dec_string(n / 10);
        s.append(digit_str(n % 10));
        s
    }
}

/// The escape sequence that puts the cursor at column `x`, row `y`.
pub open spec fn cursor_seq(x: u16, y: u16) -> Seq<char> {
    seq!['\x1b', '['] + dec_rep(y as nat) + seq![';'] + dec_rep(x as nat) + seq!['H']
}

/// Builds the escape sequence that puts the cursor at column `x`, row `y`
/// of the terminal, the origin being `(1, 1)` at the top left corner.
pub fn set_cursor(x: u16, y: u16) -> (s: String)
    ensures
        s@ == cursor_seq(x, y),
{
    proof {
        reveal_strlit("\x1b[");
        reveal_strlit(";");
        reveal_strlit("H");
    }
    let mut s = String::from_str("\x1b[");
    let row = dec_string(y as u32);
    s.append(row.as_str());
    s.append(";");
    let col = dec_string(x as u32);
    s.append(col.as_str());
    s.append("H");
    proof {
        assert(s@ =~= cursor_seq(x, y));
    }
    s
}

/// The full text of one emission: the cursor sequence, then the payload.
pub open spec fn print_at_seq(x: u16, y: u16, text: Seq<char>) -> Seq<char> {
    cursor_seq(x, y) + text
}

/// Builds the text that prints `s` at column `x`, row `y` of the terminal,
/// the origin being `(1, 1)` at the top left corner.
pub fn print_at(x: u16, y: u16, s: &String) -> (r: String)
    ensures
        r@ == print_at_seq(x, y, s@),
{
    set_cursor(x, y).concat(s.as_str())
}

/// A row of `n` spaces.
pub open spec fn spaces(n: nat) -> Seq<char> {
    Seq::new(n, |i: int| ' ')
}

/// The emissions that blank the whole screen: one row of `w` spaces for
/// each of the `h` rows, top to bottom.
pub open spec fn clear_cmds(w: u16, h: u16) -> Seq<DrawCmdView> {
    Seq::new(h as nat, |i: int| DrawCmdView { x: 1, y: (i + 1) as u16, text: spaces(w as nat) })
}

/// Builds the emissions that blank a `w` by `h` screen, one blank row per
/// screen row.
pub fn clean_screen(w: u16, h: u16) -> (r: Vec<DrawCmd>)
    ensures
        cmds_view(r@) =~= clear_cmds(w, h),
{
    proof {
        reveal_strlit(" ");
    }
    let mut line = String::new();
    let mut i: u16 = 0;
    while i < w
        invariant
            i <= w,
            line@ =~= spaces(i as nat),
        decreases w - i,
    {
        proof {
            reveal_strlit(" ");
        }
        line.append(" ");
        i = i + 1;
    }
    let mut r: Vec<DrawCmd> = Vec::new();
    let mut y: u16 = 0;
    proof {
        assert(cmds_view(r@) =~~= clear_cmds(w, h).subrange(0, 0));
    }
    while y < h
        invariant
            y <= h,
            line@ == spaces(w as nat),
            cmds_view(r@) == clear_cmds(w, h).subrange(0, y as int),
        decreases h - y,
    {
        let ghost r0 = r@;
        let ghost y0 = y as int;
        r.push(DrawCmd { x: 1, y: y + 1, text: line.clone() });
        y = y + 1;
        proof {
            assert(cmds_view(r0).len() == r0.len());
            assert(r0.len() == y0);
            assert forall|j: int| 0 <= j < y as int implies cmds_view(r@)[j] == clear_cmds(
                w,
                h,
            ).subrange(0, y as int)[j] by {
                assert(cmds_view(r@)[j] == r@[j]@);
                if j < y0 {
                    assert(r@[j] == r0[j]);
                    assert(cmds_view(r0)[j] == r0[j]@);
                    assert(cmds_view(r0)[j] == clear_cmds(w, h).subrange(0, y0)[j]);
                } else {
                    assert(r@[j]@ =~~= clear_cmds(w, h)[j]);
                }
            }
            assert(cmds_view(r@) =~~= clear_cmds(w, h).subrange(0, y as int));
        }
    }
    proof {
        assert(clear_cmds(w, h).subrange(0, h as int) =~~= clear_cmds(w, h));
    }
    r
}

/// The canonical-input bit of the terminal's local-mode flag word.
pub const ICANON_BIT: u32 = 2;

/// The echo bit of the terminal's local-mode flag word.
pub const ECHO_BIT: u32 = 8;

/// The local-mode flag word of a raw single-byte read: canonical input and
/// echo both switched off, everything else kept.
pub fn raw_mode_flags(lflag: u32) -> (r: u32)
    ensures
        r == lflag & !(ICANON_BIT | ECHO_BIT),
{
    lflag & !(ICANON_BIT | ECHO_BIT)
}

/// The local-mode flag word that restores line discipline after a raw read:
/// canonical input and echo both switched back on.
pub fn cooked_mode_flags(lflag: u32) -> (r: u32)
    ensures
        r == lflag | ICANON_BIT | ECHO_BIT,
{
    lflag | ICANON_BIT | ECHO_BIT
}

/// The local-mode flag word with only the echo of typed input switched off.
pub fn no_echo_flags(lflag: u32) -> (r: u32)
    ensures
        r == lflag & !ECHO_BIT,
{
    lflag & !ECHO_BIT
}

} // verus!
