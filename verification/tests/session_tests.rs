//! Session transitions and input normalisation.

use hangman::game::{new_round, GameData, START_LIVES};
use hangman::session::{end, first_char_lower, game, menu, GameState};
use hangman::words::{get_random_word, word_list};

fn fresh(data: &GameData) -> bool {
    data.lives == START_LIVES && !data.win && !data.guess_word.is_empty()
        && data.progress.iter().all(|&b| b == b'_')
        && data.progress.len() == data.guess_word.len()
        && data.avail_characters.iter().all(|&a| a)
}

#[test]
fn menu_play_starts_a_fresh_round() {
    let mut state = GameState::MENU;
    let mut data = GameData::default();
    menu(&mut state, &mut data, '1');
    assert_eq!(state, GameState::INGAME);
    assert!(fresh(&data));
}

#[test]
fn menu_quit_commands() {
    for ch in ['2', 'q'] {
        let mut state = GameState::MENU;
        let mut data = GameData::default();
        menu(&mut state, &mut data, ch);
        assert_eq!(state, GameState::QUIT);
    }
}

#[test]
fn menu_other_input_reprompts() {
    let mut state = GameState::MENU;
    let mut data = GameData::default();
    menu(&mut state, &mut data, 'x');
    assert_eq!(state, GameState::MENU);
    assert_eq!(data.lives, START_LIVES);
    assert!(data.guess_word.is_empty());
}

#[test]
fn game_turn_applies_guess_and_stays_in_game() {
    let mut state = GameState::INGAME;
    let mut data = new_round(b"cat".to_vec());
    game(&mut state, &mut data, 'c');
    assert_eq!(state, GameState::INGAME);
    assert_eq!(data.progress, b"c__".to_vec());
}

#[test]
fn game_with_no_lives_moves_to_end_without_a_guess() {
    let mut state = GameState::INGAME;
    let mut data = new_round(b"cat".to_vec());
    data.lives = 0;
    let progress_before = data.progress.clone();
    game(&mut state, &mut data, 'c');
    assert_eq!(state, GameState::END);
    assert_eq!(data.progress, progress_before);
    assert_eq!(data.lives, 0);
}

#[test]
fn end_play_again_starts_a_fresh_round() {
    let mut state = GameState::END;
    let mut data = new_round(b"cat".to_vec());
    data.win = true;
    end(&mut state, &mut data, '1');
    assert_eq!(state, GameState::INGAME);
    assert!(fresh(&data));
}

#[test]
fn end_menu_and_quit_commands() {
    let mut state = GameState::END;
    let mut data = GameData::default();
    end(&mut state, &mut data, '2');
    assert_eq!(state, GameState::MENU);

    for ch in ['3', 'q'] {
        let mut state = GameState::END;
        end(&mut state, &mut data, ch);
        assert_eq!(state, GameState::QUIT);
    }

    let mut state = GameState::END;
    end(&mut state, &mut data, 'x');
    assert_eq!(state, GameState::END);
}

#[test]
fn first_char_lower_takes_first_byte_down() {
    assert_eq!(first_char_lower(&b"Hello\n".to_vec()), 'h');
    assert_eq!(first_char_lower(&b"q\n".to_vec()), 'q');
    assert_eq!(first_char_lower(&b"1\n".to_vec()), '1');
    assert_eq!(first_char_lower(&b"\n".to_vec()), '\n');
    assert_eq!(first_char_lower(&Vec::new()), ' ');
}

#[test]
fn word_list_is_non_empty_and_lowercase() {
    let words = word_list();
    assert!(!words.is_empty());
    for w in &words {
        assert!(!w.is_empty());
        assert!(w.iter().all(|&b| b.is_ascii_lowercase()));
    }
}

#[test]
fn random_word_comes_from_the_list() {
    for _ in 0..20 {
        let w = get_random_word();
        assert!(!w.is_empty());
        assert!(w.iter().all(|&b| b.is_ascii_lowercase()));
        assert!(word_list().contains(&w));
    }
}
