//! Round-level behaviour: guesses, lives, reveals, win and loss.

use hangman::game::{new_round, process_guess, GameData, ALPHABET_LEN, START_LIVES};
use hangman::session::{check_status, GameState};

fn round(word: &[u8]) -> GameData {
    new_round(word.to_vec())
}

#[test]
fn fresh_round_shape() {
    let data = round(b"cat");
    assert_eq!(data.lives, START_LIVES);
    assert!(!data.win);
    assert_eq!(data.guess_word, b"cat".to_vec());
    assert_eq!(data.progress, b"___".to_vec());
    assert_eq!(data.avail_characters.len(), ALPHABET_LEN);
    assert!(data.avail_characters.iter().all(|&a| a));
}

#[test]
fn progress_keeps_word_length() {
    let mut data = round(b"dog");
    for ch in ['a', 'o', 'z', '!', 'o', 'g'] {
        process_guess(&mut data, ch);
        assert_eq!(data.progress.len(), data.guess_word.len());
    }
}

#[test]
fn correct_guess_reveals_and_keeps_lives() {
    let mut data = round(b"cat");
    process_guess(&mut data, 'a');
    assert_eq!(data.progress, b"_a_".to_vec());
    assert_eq!(data.lives, START_LIVES);
    assert!(!data.avail_characters[0]);
}

#[test]
fn wrong_guess_costs_one_life() {
    let mut data = round(b"cat");
    process_guess(&mut data, 'z');
    assert_eq!(data.progress, b"___".to_vec());
    assert_eq!(data.lives, START_LIVES - 1);
    assert!(!data.avail_characters[25]);
}

#[test]
fn repeated_guess_is_a_no_op() {
    let mut data = round(b"dog");
    process_guess(&mut data, 'x');
    assert_eq!(data.lives, START_LIVES - 1);
    process_guess(&mut data, 'x');
    assert_eq!(data.lives, START_LIVES - 1);

    process_guess(&mut data, 'o');
    assert_eq!(data.progress, b"_o_".to_vec());
    assert_eq!(data.lives, START_LIVES - 1);
    process_guess(&mut data, 'o');
    assert_eq!(data.progress, b"_o_".to_vec());
    assert_eq!(data.lives, START_LIVES - 1);
}

#[test]
fn scenario_cat_guessed_in_order() {
    let mut data = round(b"cat");
    let mut state = GameState::INGAME;

    process_guess(&mut data, 'c');
    assert_eq!(data.progress, b"c__".to_vec());
    process_guess(&mut data, 'a');
    assert_eq!(data.progress, b"ca_".to_vec());
    process_guess(&mut data, 't');
    assert_eq!(data.progress, b"cat".to_vec());
    assert_eq!(data.lives, 6);

    check_status(&mut state, &mut data);
    assert!(data.win);
    assert_eq!(state, GameState::END);
    assert_eq!(data.lives, 6);
}

#[test]
fn scenario_dog_six_misses_loses() {
    let mut data = round(b"dog");
    let mut state = GameState::INGAME;

    let mut expected_lives = 6u8;
    for ch in ['x', 'y', 'z', 'q', 'w', 'e'] {
        process_guess(&mut data, ch);
        expected_lives -= 1;
        assert_eq!(data.lives, expected_lives);
        check_status(&mut state, &mut data);
    }
    assert_eq!(data.lives, 0);
    assert!(!data.win);
    assert_eq!(state, GameState::END);
}

#[test]
fn scenario_bee_reveals_both_positions_at_once() {
    let mut data = round(b"bee");
    process_guess(&mut data, 'e');
    assert_eq!(data.progress, b"_ee".to_vec());
    assert_eq!(data.lives, START_LIVES);
}

#[test]
fn scenario_non_letter_changes_nothing() {
    let mut data = round(b"cat");
    process_guess(&mut data, 'c');
    let avail_before = data.avail_characters.clone();
    let progress_before = data.progress.clone();
    let lives_before = data.lives;
    let win_before = data.win;

    process_guess(&mut data, '7');
    assert_eq!(data.avail_characters, avail_before);
    assert_eq!(data.progress, progress_before);
    assert_eq!(data.lives, lives_before);
    assert_eq!(data.win, win_before);
}

#[test]
fn win_flag_set_exactly_on_full_reveal() {
    let mut data = round(b"bee");
    let mut state = GameState::INGAME;

    process_guess(&mut data, 'e');
    check_status(&mut state, &mut data);
    assert!(!data.win);
    assert_eq!(state, GameState::INGAME);

    process_guess(&mut data, 'b');
    check_status(&mut state, &mut data);
    assert!(data.win);
    assert_eq!(state, GameState::END);
}

#[test]
fn default_round_has_no_word() {
    let data = GameData::default();
    assert_eq!(data.lives, START_LIVES);
    assert!(!data.win);
    assert!(data.guess_word.is_empty());
    assert!(data.progress.is_empty());
    assert_eq!(data.avail_characters.len(), ALPHABET_LEN);
}
