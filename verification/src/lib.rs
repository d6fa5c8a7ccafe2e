//! Core engine of a terminal word-guessing game: guess scoring against a
//! hidden solution, a per-letter best-verdict keyboard tracker, a line editor
//! that turns key events into validated guesses, and the round-by-round
//! session state machine that ties them together.

pub mod dict;
pub mod editor;
pub mod game;
pub mod keyboard;
pub mod label;
pub mod rng;
pub mod score;
pub mod session;
pub mod words;

pub use words::Word;
pub use words::WORD_LENGTH;
