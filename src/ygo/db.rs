//! A Yu-Gi-Oh! quiz in progress.
use vstd::prelude::*;
use crate::matcher::{acceptable, roughly_card_name_equal};

verus! {

/// A user's current Yu-Gi-Oh! quiz: the card's name, its reading, and the
/// clue text shown.
#[derive(Debug)]
pub struct Quiz {
    pub user_id: i64,
    pub konami_id: i64,
    pub card_name: String,
    pub card_name_ruby: String,
    pub card_text: String,
}

impl Quiz {
    /// Whether an answer names this quiz's card, by its name or its reading.
    pub fn is_correct(&self, answer: &str) -> (r: bool)
        ensures
            r == acceptable(answer@, self.card_name@, self.card_name_ruby@),
    {
        roughly_card_name_equal(answer, self.card_name.as_str(), self.card_name_ruby.as_str())
    }
}

} // verus!
