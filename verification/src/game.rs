//! The per-round game data and the guess-evaluation rules.
//!
//! A round holds a hidden word (lowercase ASCII bytes), a progress line of
//! the same length in which unguessed positions show `_`, the letters not
//! yet tried, a life counter, and the win flag. `apply_guess` is the
//! mathematical model of one guess; `process_guess` implements it.

use vstd::prelude::*;

verus! {

/// Number of letters in the alphabet; `avail_characters` has one slot each.
pub const ALPHABET_LEN: usize = 26;

/// Lives a fresh round starts with.
pub const START_LIVES: u8 = 6;

/// ASCII code of `a`.
pub const LOWER_A: u8 = 97;

/// ASCII code of `z`.
pub const LOWER_Z: u8 = 122;

/// ASCII code of `_`, the placeholder for a position not yet revealed.
pub const PLACEHOLDER: u8 = 95;

/// True of a byte that is a lowercase ASCII letter.
pub open spec fn lower(c: u8) -> bool {
    LOWER_A <= c && c <= LOWER_Z
}

/// Slot of a lowercase letter in the availability table.
pub open spec fn letter_index(c: u8) -> int {
    c - LOWER_A
}

/// A word a round can hide: non-empty, lowercase ASCII letters only.
pub open spec fn word_ok(w: Seq<u8>) -> bool {
    w.len() > 0 && forall|i: int| 0 <= i < w.len() ==> lower(#[trigger] w[i])
}

/// State of one round.
pub struct GameData {
    /// One slot per letter; true while the letter has not been guessed.
    pub avail_characters: Vec<bool>,
    /// Wrong guesses still allowed before the round is lost.
    pub lives: u8,
    /// The hidden word, as lowercase ASCII bytes.
    pub guess_word: Vec<u8>,
    /// Same length as the word; a revealed letter or `b'_'` per position.
    pub progress: Vec<u8>,
    /// Set exactly when the progress line equals the hidden word.
    pub win: bool,
}

/// Mathematical view of a round.
#[verifier::ext_equal]
pub ghost struct GameView {
    pub avail: Seq<bool>,
    pub lives: u8,
    pub word: Seq<u8>,
    pub progress: Seq<u8>,
    pub win: bool,
}

impl View for GameData {
    type V = GameView;

    open spec fn view(&self) -> GameView {
        GameView {
            avail: self.avail_characters@,
            lives: self.lives,
            word: self.guess_word@,
            progress: self.progress@,
            win: self.win,
        }
    }
}

impl GameView {
    /// Round invariant: a full availability table, a word of lowercase
    /// letters, a progress line of the same length whose every position is
    /// either revealed or the placeholder, and a position revealed exactly
    /// when its letter has been guessed.
    pub open spec fn wf(self) -> bool {
        &&& self.avail.len() == ALPHABET_LEN
        &&& self.progress.len() == self.word.len()
        &&& forall|i: int| 0 <= i < self.word.len() ==> lower(#[trigger] self.word[i])
        &&& forall|i: int|
            0 <= i < self.word.len() ==> (#[trigger] self.progress[i] == self.word[i]
                || self.progress[i] == PLACEHOLDER)
        &&& forall|i: int|
            0 <= i < self.word.len() ==> ((#[trigger] self.progress[i] == self.word[i])
                <==> !self.avail[letter_index(self.word[i])])
    }
}

/// True when the word contains the letter.
pub open spec fn word_has(word: Seq<u8>, ch: u8) -> bool {
    exists|i: int| 0 <= i < word.len() && word[i] == ch
}

/// The progress line after a correct guess of `ch`: every position of the
/// word holding `ch` shows `ch`, the rest are unchanged.
pub open spec fn reveal_positions(progress: Seq<u8>, word: Seq<u8>, ch: u8) -> Seq<u8> {
    Seq::new(progress.len(), |i: int| if word[i] == ch { ch } else { progress[i] })
}

/// One guess, as a function on views. A byte outside `a`..`z` or a letter
/// already taken leaves the round untouched; a fresh letter is taken, and
/// then either reveals all its positions (present) or costs one life
/// (absent).
pub open spec fn apply_guess(g: GameView, ch: u8) -> GameView {
    if !lower(ch) {
        g
    } else if !g.avail[letter_index(ch)] {
        g
    } else if word_has(g.word, ch) {
        GameView {
            avail: g.avail.update(letter_index(ch), false),
            progress: reveal_positions(g.progress, g.word, ch),
            ..g
        }
    } else {
        GameView { avail: g.avail.update(letter_index(ch), false), lives: (g.lives - 1) as u8, ..g }
    }
}

/// The byte a guessed character stands for: its ASCII code for a lowercase
/// letter, and 0 (no letter, so a no-op guess) for anything else.
pub open spec fn guess_code(ch: char) -> u8 {
    if LOWER_A <= ch as u32 && ch as u32 <= LOWER_Z { (ch as u32) as u8 } else { 0 }
}

/// Apply one guessed character to the round, exactly as `apply_guess` says:
/// non-letters and repeated letters are ignored; a fresh letter is removed
/// from the table and either reveals every matching position or costs one
/// life.
pub fn process_guess(data: &mut GameData, ch: char)
    requires
        old(data)@.wf(),
        old(data).lives > 0,
    ensures
        final(data)@ == apply_guess(old(data)@, guess_code(ch)),
        final(data)@.wf(),
{
    proof {
        lemma_guess_preserves_wf(old(data)@, guess_code(ch));
    }
    let code: u32 = ch as u32;
    if code < LOWER_A as u32 || code > LOWER_Z as u32 {
        return ;
    }
    let b: u8 = code as u8;
    let char_idx: usize = (b - LOWER_A) as usize;
    if !data.avail_characters[char_idx] {
        return ;
    }
    data.avail_characters[char_idx] = false;

    let ghost g0 = old(data)@;
    let len: usize = data.guess_word.len();
    let mut found: bool = false;
    let mut idx: usize = 0;
    while idx < len
        invariant
            len == data.guess_word.len(),
            idx <= len,
            found == exists|i: int| 0 <= i < idx && data.guess_word@[i] == b,
        decreases len - idx,
    {
        if data.guess_word[idx] == b {
            found = true;
        }
        idx += 1;
    }

    if !found {
        data.lives = data.lives - 1;
        proof {
            assert(data@ =~= apply_guess(g0, guess_code(ch)));
        }
        return ;
    }

    let mut j: usize = 0;
    while j < len
        invariant
            len == data.guess_word.len(),
            len == data.progress.len(),
            len == g0.progress.len(),
            j <= len,
            data.guess_word@ == g0.word,
            data.avail_characters@ == g0.avail.update(letter_index(b), false),
            data.lives == g0.lives,
            data.win == g0.win,
            lower(b),
            b == guess_code(ch),
            g0.avail[letter_index(b)],
            word_has(g0.word, b),
            forall|m: int|
                0 <= m < len ==> #[trigger] data.progress@[m] == (if m < j && g0.word[m] == b {
                    b
                } else {
                    g0.progress[m]
                }),
        decreases len - j,
    {
        if data.guess_word[j] == b {
            data.progress[j] = b;
        }
        j += 1;
    }
    proof {
        assert(data@.progress =~= reveal_positions(g0.progress, g0.word, b));
        assert(data@ =~= apply_guess(g0, guess_code(ch)));
    }
}

/// A guess never changes the word, keeps the progress line the word's
/// length, and preserves the round invariant.
pub proof fn lemma_guess_preserves_wf(g: GameView, ch: u8)
    requires
        g.wf(),
    ensures
        apply_guess(g, ch).wf(),
        apply_guess(g, ch).word == g.word,
        apply_guess(g, ch).progress.len() == g.word.len(),
{
    let g1 = apply_guess(g, ch);
    if lower(ch) && g.avail[letter_index(ch)] && word_has(g.word, ch) {
        assert forall|i: int| 0 <= i < g1.word.len() implies (#[trigger] g1.progress[i]
            == g1.word[i]) <==> !g1.avail[letter_index(g1.word[i])] by {
            if g.word[i] == ch {
            } else {
                assert(letter_index(g.word[i]) != letter_index(ch));
            }
        }
    }
}

/// A fresh round hiding the given word: full table, full lives, nothing
/// revealed, not won.
pub open spec fn fresh_round_for(g: GameView, word: Seq<u8>) -> bool {
    &&& g.word == word
    &&& g.lives == START_LIVES
    &&& !g.win
    &&& g.avail.len() == ALPHABET_LEN
    &&& forall|i: int| 0 <= i < ALPHABET_LEN ==> g.avail[i]
    &&& g.progress.len() == word.len()
    &&& forall|i: int| 0 <= i < g.progress.len() ==> g.progress[i] == PLACEHOLDER
}

/// Build the state of a fresh round hiding `word`.
pub fn new_round(word: Vec<u8>) -> (d: GameData)
    requires
        word_ok(word@),
    ensures
        fresh_round_for(d@, word@),
        d@.wf(),
{
    let mut d = GameData::default();
    let ghost w = word@;
    d.guess_word = word;
    let mut p: Vec<u8> = Vec::new();
    while p.len() < d.guess_word.len()
        invariant
            d.guess_word@ == w,
            p.len() <= w.len(),
            forall|i: int| 0 <= i < p.len() ==> p[i] == PLACEHOLDER,
        decreases d.guess_word.len() - p.len(),
    {
        p.push(PLACEHOLDER);
    }
    d.progress = p;
    proof {
        assert forall|i: int| 0 <= i < d@.word.len() implies (#[trigger] d@.progress[i]
            == d@.word[i]) <==> !d@.avail[letter_index(d@.word[i])] by {
            assert(lower(d@.word[i]));
        }
    }
    d
}

/// Start a round in place: a word drawn at random, everything else reset.
/// Nothing of the previous round survives.
pub fn init_game_data(data: &mut GameData)
    ensures
        final(data)@.wf(),
        word_ok(final(data)@.word),
        fresh_round_for(final(data)@, final(data)@.word),
{
    *data = new_round(crate::words::get_random_word());
}

/// Lives never rise and never wrap: a fresh guess of a letter present in
/// the word keeps them unchanged, a fresh guess of an absent letter takes
/// exactly one.
pub proof fn lemma_guess_lives(g: GameView, ch: u8)
    requires
        g.wf(),
        g.lives > 0,
        lower(ch),
        g.avail[letter_index(ch)],
    ensures
        word_has(g.word, ch) ==> apply_guess(g, ch).lives == g.lives,
        !word_has(g.word, ch) ==> apply_guess(g, ch).lives == g.lives - 1,
        apply_guess(g, ch).lives <= g.lives,
{
}

/// Only the first guess of a letter has an effect: repeating it leaves the
/// round exactly as it stands, with no life lost and nothing re-revealed.
pub proof fn lemma_guess_twice(g: GameView, ch: u8)
    requires
        g.wf(),
    ensures
        apply_guess(apply_guess(g, ch), ch) == apply_guess(g, ch),
{
    if lower(ch) && g.avail[letter_index(ch)] {
        assert(!apply_guess(g, ch).avail[letter_index(ch)]);
    }
}

impl Default for GameData {
    /// The between-rounds state: no word yet, full table, full lives.
    fn default() -> (d: Self)
        ensures
            d@.lives == START_LIVES,
            !d@.win,
            d@.word.len() == 0,
            d@.progress.len() == 0,
            d@.avail.len() == ALPHABET_LEN,
            forall|i: int| 0 <= i < ALPHABET_LEN ==> d@.avail[i],
            d@.wf(),
    {
        let mut avail: Vec<bool> = Vec::new();
        while avail.len() < ALPHABET_LEN
            invariant
                avail.len() <= ALPHABET_LEN,
                forall|i: int| 0 <= i < avail.len() ==> avail[i],
            decreases ALPHABET_LEN - avail.len(),
        {
            avail.push(true);
        }
        GameData {
            avail_characters: avail,
            lives: START_LIVES,
            guess_word: Vec::new(),
            progress: Vec::new(),
            win: false,
        }
    }
}

} // verus!
