//! Astrocards: a timed flashcard game and a learning scheduler.
//!
//! Asteroids carrying flashcard questions fall down a canvas; typing the
//! answer of one destroys it. A second mode walks the same deck through a
//! multiple-choice and a free-response phase.
//!
//! The library is the simulation: it holds the state, decides every
//! transition and proves what each transition does. Time is counted in
//! microseconds, lengths in thousandths of a canvas pixel, angles in
//! thousandths of a degree and shares in millionths, all as integers.
//! Drawing, sound output, windows and files belong to the program around it.

pub mod flashcards;
pub mod gui;
pub mod game;
pub mod units;
pub mod log;
pub mod random;
pub mod learn;
