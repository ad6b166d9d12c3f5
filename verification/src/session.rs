//! The session state machine: menu, one round in play, end screen, quit.
//!
//! Each screen's decision logic takes the command character the operator
//! typed and moves the machine; reading that character and drawing the
//! screens stay outside the library.

use vstd::prelude::*;
use crate::game::{
    apply_guess, fresh_round_for, guess_code, init_game_data, process_guess, word_ok, GameData,
    GameView,
};

verus! {

/// ASCII code of `A`.
pub const UPPER_A: u8 = 65;

/// ASCII code of `Z`.
pub const UPPER_Z: u8 = 90;

/// Distance between an uppercase ASCII letter and its lowercase twin.
pub const CASE_GAP: u8 = 32;

/// Lowercase of an ASCII byte: `A`..`Z` map down, all else is unchanged.
pub open spec fn lower_byte(b: u8) -> u8 {
    if UPPER_A <= b && b <= UPPER_Z {
        (b + CASE_GAP) as u8
    } else {
        b
    }
}

/// The command character an input line yields: the lowercase of its first
/// byte, or a space (a command that matches nothing) for an empty line,
/// the stand-in for a failed read.
pub fn first_char_lower(line: &Vec<u8>) -> (c: char)
    ensures
        line@.len() == 0 ==> c == ' ',
        line@.len() > 0 ==> c as u32 == lower_byte(line@[0]),
{
    if line.len() == 0 {
        return ' ';
    }
    let b: u8 = line[0];
    let lb: u8 = if UPPER_A <= b && b <= UPPER_Z {
        b + CASE_GAP
    } else {
        b
    };
    lb as char
}

/// The four screens of a session. `QUIT` is terminal.
#[derive(Clone, Copy, PartialEq, Eq, Debug)]
pub enum GameState {
    MENU,
    INGAME,
    END,
    QUIT,
}

/// True when every position of the word is revealed.
pub open spec fn round_won(g: GameView) -> bool {
    g.progress == g.word
}

/// The round after the status check: the win flag is set exactly when the
/// progress line has reached the word.
pub open spec fn settle_win(g: GameView) -> GameView {
    GameView { win: g.win || round_won(g), ..g }
}

/// The screen after the status check: a won round or one out of lives
/// moves to the end screen, anything else stays put.
pub open spec fn settle_state(st: GameState, g: GameView) -> GameState {
    if round_won(g) || g.lives == 0 {
        GameState::END
    } else {
        st
    }
}

/// Evaluate the round after a guess: set the win flag when the word is
/// fully revealed, and move to the end screen when the round is won or the
/// lives are gone.
pub fn check_status(state: &mut GameState, data: &mut GameData)
    ensures
        final(data)@ == settle_win(old(data)@),
        *final(state) == settle_state(*old(state), old(data)@),
{
    let ghost g0 = old(data)@;
    let equal = data.guess_word == data.progress;
    proof {
        if equal {
            assert(g0.word =~= g0.progress);
        } else {
            assert(g0.word != g0.progress) by {
                if g0.word == g0.progress {
                    assert(data.guess_word@ =~= data.progress@);
                }
            }
        }
    }
    if equal {
        *state = GameState::END;
        data.win = true;
    }
    if data.lives == 0 {
        *state = GameState::END;
    }
    proof {
        assert(data@ =~= settle_win(g0));
    }
}

/// One menu turn: `1` starts a fresh round, `2` or `q` quits, anything
/// else changes nothing.
pub fn menu(state: &mut GameState, data: &mut GameData, choice: char)
    ensures
        choice == '1' ==> (*final(state) is INGAME && final(data)@.wf() && word_ok(
            final(data)@.word,
        ) && fresh_round_for(final(data)@, final(data)@.word)),
        (choice == '2' || choice == 'q') ==> (*final(state) is QUIT && final(data)@ == old(
            data,
        )@),
        (choice != '1' && choice != '2' && choice != 'q') ==> (*final(state) == *old(state)
            && final(data)@ == old(data)@),
{
    match choice {
        '1' => {
            *state = GameState::INGAME;
            init_game_data(data);
        },
        '2' => {
            *state = GameState::QUIT;
        },
        'q' => {
            *state = GameState::QUIT;
        },
        _ => {},
    }
}

/// One in-game turn. Out of lives, the round moves straight to the end
/// screen and the command is ignored; otherwise the guess is applied and
/// the round settled as `settle_win` and `settle_state` say.
pub fn game(state: &mut GameState, data: &mut GameData, choice: char)
    requires
        old(data)@.wf(),
    ensures
        old(data).lives == 0 ==> (*final(state) is END && final(data)@ == old(data)@),
        old(data).lives > 0 ==> {
            let played = apply_guess(old(data)@, guess_code(choice));
            &&& final(data)@ == settle_win(played)
            &&& final(data)@.wf()
            &&& *final(state) == settle_state(*old(state), played)
        },
{
    if data.lives == 0 {
        *state = GameState::END;
        return ;
    }
    process_guess(data, choice);
    check_status(state, data);
}

/// One end-screen turn: `1` starts a fresh round, `2` returns to the menu,
/// `3` or `q` quits, anything else changes nothing.
pub fn end(state: &mut GameState, data: &mut GameData, choice: char)
    ensures
        choice == '1' ==> (*final(state) is INGAME && final(data)@.wf() && word_ok(
            final(data)@.word,
        ) && fresh_round_for(final(data)@, final(data)@.word)),
        choice == '2' ==> (*final(state) is MENU && final(data)@ == old(data)@),
        (choice == '3' || choice == 'q') ==> (*final(state) is QUIT && final(data)@ == old(
            data,
        )@),
        (choice != '1' && choice != '2' && choice != '3' && choice != 'q') ==> (*final(state)
            == *old(state) && final(data)@ == old(data)@),
{
    match choice {
        '1' => {
            *state = GameState::INGAME;
            init_game_data(data);
        },
        '2' => {
            *state = GameState::MENU;
        },
        '3' => {
            *state = GameState::QUIT;
        },
        'q' => {
            *state = GameState::QUIT;
        },
        _ => {},
    }
}

/// The win flag after the status check is set exactly when the progress
/// line equals the hidden word.
pub proof fn lemma_win_iff(g: GameView)
    requires
        !g.win,
    ensures
        settle_win(g).win <==> g.progress == g.word,
{
}

/// The session leaves a round for the end screen exactly when the round is
/// won or the lives have reached zero.
pub proof fn lemma_round_ends(st: GameState, g: GameView)
    requires
        !(st is END),
    ensures
        settle_state(st, g) is END <==> (round_won(g) || g.lives == 0),
{
}

} // verus!
