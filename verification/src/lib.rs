//! A pacing engine for rapid serial visual presentation: text is shown one
//! word at a time, each word for a duration that follows from the reading
//! speed, the word's length and its punctuation.

pub mod clock;
pub mod config;
pub mod pacing;
pub mod rsvp_engine;
pub mod session;
pub mod text;
