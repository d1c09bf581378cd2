//! A two-choice reaction game: a question, two opposing cards, a countdown,
//! and a running tally that decides the result shown at the end.
//!
//! The library holds the rules of the game and nothing that draws, plays a
//! sound or stores a score. All durations are whole microseconds.
//!
//! A round goes from the intro through its questions to the result screen.
//! A question is open until a card is clicked or its time is up; when the
//! time is up, a side is picked for the player at random and scored like any
//! other pick, so every question asked ends with exactly one pick. Questions
//! are drawn at random without repetition, and the round ends when none is
//! left. A replay starts a new session from nothing, with the deck shuffled
//! anew.
//!
//! `model` states the rules over a mathematical picture of a round, `game`
//! carries them out, and `laws` proves what follows from them. `supply`
//! draws the questions, `questions` holds them, `pace` keeps the clock,
//! `outcome` names the result, `screen` says what text is on display, and
//! `chance` is where the dice and the identifiers come from.

pub mod chance;
pub mod choice;
pub mod effect;
pub mod game;
pub mod laws;
pub mod model;
pub mod outcome;
pub mod pace;
pub mod phase;
pub mod questions;
pub mod screen;
pub mod supply;
pub mod upkeep;
