//! A Magic: the Gathering quiz in progress.
use vstd::prelude::*;
use crate::matcher::{acceptable, roughly_card_name_equal};

verus! {

/// A user's current Magic quiz: the card's Japanese printed name, its
/// English name, and the clue text shown.
#[derive(Debug)]
pub struct Quiz {
    pub user_id: i64,
    pub scryfall_uri: String,
    pub card_name: String,
    pub english_name: String,
    pub card_text: String,
}

impl Quiz {
    /// Whether an answer names this quiz's card, by its printed name or its
    /// English name.
    pub fn is_correct(&self, answer: &str) -> (r: bool)
        ensures
            r == acceptable(answer@, self.card_name@, self.english_name@),
    {
        roughly_card_name_equal(answer, self.card_name.as_str(), self.english_name.as_str())
    }
}

} // verus!
