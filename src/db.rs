//! The record of which game's quiz a user is playing.
use vstd::prelude::*;

verus! {

/// The game a quiz is about.
#[derive(PartialEq, Eq, Structural, Clone, Copy, Debug)]
pub enum QuizType {
    Ygo,
    Mtg,
}

/// The quiz a user is playing: one per user.
#[derive(PartialEq, Eq, Structural, Clone, Copy, Debug)]
pub struct Quiz {
    pub user_id: i64,
    pub quiz_type: QuizType,
}

} // verus!
