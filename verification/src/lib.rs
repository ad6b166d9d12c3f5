//! Core logic of a terminal hangman game: the per-round game data with its
//! invariants, the guess-evaluation rules, the session state machine, and
//! the text rendering of each screen. Input and output live outside the
//! library; word selection draws its randomness through a thin wrapper.

pub mod game;
pub mod render;
pub mod session;
pub mod words;
