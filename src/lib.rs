//! Answer checking for a card-name quiz.
//!
//! The matcher decides whether a typed answer names a card, tolerating the
//! usual variations of Japanese input: full-width and half-width digits,
//! hiragana for katakana, dash and space glyphs, optional punctuation.
pub mod bot;
pub mod clue;
pub mod command;
pub mod db;
pub mod json;
pub mod lemmas;
pub mod matcher;
pub mod mtg;
pub mod reply;
pub mod ygo;
