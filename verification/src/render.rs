//! Text rendering of the in-game screen, byte for byte.
//!
//! Each function builds exactly the bytes the terminal shows: the hanged
//! figure for a given life count, the table of letters not yet tried, and
//! the progress line. Writing the bytes out stays outside the library.

use vstd::prelude::*;
use crate::game::{ALPHABET_LEN, LOWER_A};

verus! {

/// ASCII tab.
pub const TAB: u8 = 9;

/// ASCII line feed.
pub const NL: u8 = 10;

/// ASCII space.
pub const SPACE: u8 = 32;

/// ASCII `_`.
pub const UNDERSCORE: u8 = 95;

/// ASCII `o`, the figure's head.
pub const HEAD: u8 = 111;

/// ASCII `|`.
pub const BAR: u8 = 124;

/// ASCII `/`.
pub const SLASH: u8 = 47;

/// ASCII `\`.
pub const BACKSLASH: u8 = 92;

/// The indent every figure line starts with: three tabs, three spaces.
pub open spec fn man_indent() -> Seq<u8> {
    seq![TAB, TAB, TAB, SPACE, SPACE, SPACE]
}

/// The gallows top line; drawn only once the last life is gone.
pub open spec fn man_gallows(lives: u8) -> Seq<u8> {
    if lives == 0 {
        seq![TAB, TAB, TAB, SPACE, SPACE, SPACE, SPACE, UNDERSCORE, UNDERSCORE, UNDERSCORE, NL]
    } else {
        Seq::<u8>::empty()
    }
}

/// End of a figure line: the rope post appears at one life left.
pub open spec fn man_rope(lives: u8) -> Seq<u8> {
    if lives <= 1 {
        seq![SPACE, BAR, NL]
    } else {
        seq![NL]
    }
}

/// The head line: arms at three lives left, the head at five.
pub open spec fn man_head(lives: u8) -> Seq<u8> {
    man_indent() + (if lives <= 3 {
        seq![UNDERSCORE]
    } else {
        seq![SPACE]
    }) + (if lives <= 5 {
        seq![HEAD]
    } else {
        Seq::<u8>::empty()
    }) + (if lives <= 3 {
        seq![UNDERSCORE]
    } else {
        seq![SPACE]
    }) + man_rope(lives)
}

/// The torso line, drawn from four lives left down.
pub open spec fn man_torso(lives: u8) -> Seq<u8> {
    man_indent() + (if lives <= 4 {
        seq![SPACE, BAR, SPACE]
    } else {
        Seq::<u8>::empty()
    }) + man_rope(lives)
}

/// The legs line, drawn from two lives left down.
pub open spec fn man_legs(lives: u8) -> Seq<u8> {
    man_indent() + (if lives <= 2 {
        seq![SLASH, SPACE, BACKSLASH]
    } else {
        Seq::<u8>::empty()
    }) + man_rope(lives)
}

/// The whole figure for a life count, a blank line after it.
pub open spec fn man_figure(lives: u8) -> Seq<u8> {
    man_gallows(lives) + man_head(lives) + man_torso(lives) + man_legs(lives) + seq![NL]
}

/// Append the standard figure indent.
fn push_indent(out: &mut Vec<u8>)
    ensures
        final(out)@ == old(out)@ + man_indent(),
{
    out.push(TAB);
    out.push(TAB);
    out.push(TAB);
    out.push(SPACE);
    out.push(SPACE);
    out.push(SPACE);
    proof {
        assert(out@ =~= old(out)@ + man_indent());
    }
}

/// Append a figure line's ending for the given life count.
fn push_rope(out: &mut Vec<u8>, lives: u8)
    ensures
        final(out)@ == old(out)@ + man_rope(lives),
{
    if lives <= 1 {
        out.push(SPACE);
        out.push(BAR);
    }
    out.push(NL);
    proof {
        assert(out@ =~= old(out)@ + man_rope(lives));
    }
}

/// The hanged figure as the terminal shows it for this life count.
pub fn display_man(lives: u8) -> (out: Vec<u8>)
    ensures
        out@ == man_figure(lives),
{
    let mut out: Vec<u8> = Vec::new();
    if lives == 0 {
        out.push(TAB);
        out.push(TAB);
        out.push(TAB);
        out.push(SPACE);
        out.push(SPACE);
        out.push(SPACE);
        out.push(SPACE);
        out.push(UNDERSCORE);
        out.push(UNDERSCORE);
        out.push(UNDERSCORE);
        out.push(NL);
    }
    proof {
        assert(out@ =~= man_gallows(lives));
    }
    push_indent(&mut out);
    if lives <= 3 {
        out.push(UNDERSCORE);
    } else {
        out.push(SPACE);
    }
    if lives <= 5 {
        out.push(HEAD);
    }
    if lives <= 3 {
        out.push(UNDERSCORE);
    } else {
        out.push(SPACE);
    }
    push_rope(&mut out, lives);
    proof {
        assert(out@ =~= man_gallows(lives) + man_head(lives));
    }
    push_indent(&mut out);
    if lives <= 4 {
        out.push(SPACE);
        out.push(BAR);
        out.push(SPACE);
    }
    push_rope(&mut out, lives);
    proof {
        assert(out@ =~= man_gallows(lives) + man_head(lives) + man_torso(lives));
    }
    push_indent(&mut out);
    if lives <= 2 {
        out.push(SLASH);
        out.push(SPACE);
        out.push(BACKSLASH);
    }
    push_rope(&mut out, lives);
    out.push(NL);
    proof {
        assert(out@ =~= man_figure(lives));
    }
    out
}

/// One slot of the letter table: a row break before every ninth slot,
/// then the letter and a space, or two spaces once the letter is taken.
pub open spec fn avail_cell(avail: Seq<bool>, i: int) -> Seq<u8> {
    (if i % 9 == 0 {
        seq![NL, TAB, TAB]
    } else {
        Seq::<u8>::empty()
    }) + (if avail[i] {
        seq![(LOWER_A + i) as u8, SPACE]
    } else {
        seq![SPACE, SPACE]
    })
}

/// The first `n` slots of the letter table, in order.
pub open spec fn avail_cells(avail: Seq<bool>, n: int) -> Seq<u8>
    decreases n,
{
    if n <= 0 {
        Seq::<u8>::empty()
    } else {
        avail_cells(avail, n - 1) + avail_cell(avail, n - 1)
    }
}

/// The whole letter table with its surrounding blank space.
pub open spec fn avail_render(avail: Seq<bool>) -> Seq<u8> {
    seq![TAB, TAB] + avail_cells(avail, ALPHABET_LEN as int) + seq![NL, NL, NL]
}

/// The table of letters still available, as the terminal shows it.
pub fn display_avail(avail_characters: &Vec<bool>) -> (out: Vec<u8>)
    requires
        avail_characters@.len() == ALPHABET_LEN,
    ensures
        out@ == avail_render(avail_characters@),
{
    let mut out: Vec<u8> = Vec::new();
    out.push(TAB);
    out.push(TAB);
    let mut idx: usize = 0;
    while idx < ALPHABET_LEN
        invariant
            idx <= ALPHABET_LEN,
            avail_characters@.len() == ALPHABET_LEN,
            out@ == seq![TAB, TAB] + avail_cells(avail_characters@, idx as int),
        decreases ALPHABET_LEN - idx,
    {
        if idx % 9 == 0 {
            out.push(NL);
            out.push(TAB);
            out.push(TAB);
        }
        if avail_characters[idx] {
            let ch: u8 = LOWER_A + idx as u8;
            out.push(ch);
            out.push(SPACE);
        } else {
            out.push(SPACE);
            out.push(SPACE);
        }
        proof {
            assert(out@ =~= seq![TAB, TAB] + avail_cells(avail_characters@, idx + 1));
        }
        idx += 1;
    }
    out.push(NL);
    out.push(NL);
    out.push(NL);
    proof {
        assert(out@ =~= avail_render(avail_characters@));
    }
    out
}

/// The first `n` positions of the progress line, each followed by a space.
pub open spec fn guess_cells(p: Seq<u8>, n: int) -> Seq<u8>
    decreases n,
{
    if n <= 0 {
        Seq::<u8>::empty()
    } else {
        guess_cells(p, n - 1) + seq![p[n - 1], SPACE]
    }
}

/// The whole progress line as the terminal shows it.
pub open spec fn guess_render(p: Seq<u8>) -> Seq<u8> {
    seq![TAB, TAB, TAB] + guess_cells(p, p.len() as int) + seq![NL]
}

/// The progress line, spaced out, as the terminal shows it.
pub fn display_guess(progress: &Vec<u8>) -> (out: Vec<u8>)
    ensures
        out@ == guess_render(progress@),
{
    let mut out: Vec<u8> = Vec::new();
    out.push(TAB);
    out.push(TAB);
    out.push(TAB);
    let mut i: usize = 0;
    while i < progress.len()
        invariant
            i <= progress.len(),
            out@ == seq![TAB, TAB, TAB] + guess_cells(progress@, i as int),
        decreases progress.len() - i,
    {
        out.push(progress[i]);
        out.push(SPACE);
        proof {
            assert(out@ =~= seq![TAB, TAB, TAB] + guess_cells(progress@, i + 1));
        }
        i += 1;
    }
    out.push(NL);
    proof {
        assert(out@ =~= guess_render(progress@));
    }
    out
}

} // verus!
