//! What the bot does with a command: which handler takes it.
use vstd::prelude::*;
use crate::db::QuizType;

verus! {

/// The handler an interaction goes to.
#[derive(PartialEq, Eq, Structural, Clone, Copy, Debug)]
pub enum Route {
    /// Not a `quiz` command, or sent by a bot.
    Ignore,
    /// The Yu-Gi-Oh! group.
    Ygo,
    /// The Magic group.
    Mtg,
    Help,
    /// `ans`, `giveup` or anything else: settled by the user's current quiz.
    General,
}

pub open spec fn route_of(from_bot: bool, command_name: Seq<char>, first_option: Seq<char>) -> Route {
    if from_bot || command_name != "quiz"@ {
        Route::Ignore
    } else if first_option == "ygo"@ {
        Route::Ygo
    } else if first_option == "mtg"@ {
        Route::Mtg
    } else if first_option == "help"@ {
        Route::Help
    } else {
        Route::General
    }
}

/// Routes a command by its name and the name of its first option.
pub fn route_interaction(from_bot: bool, command_name: &str, first_option: &str) -> (r: Route)
    ensures
        r == route_of(from_bot, command_name@, first_option@),
{
    if from_bot || command_name.to_owned() != "quiz".to_owned() {
        return Route::Ignore;
    }
    let first = first_option.to_owned();
    if first == "ygo".to_owned() {
        Route::Ygo
    } else if first == "mtg".to_owned() {
        Route::Mtg
    } else if first == "help".to_owned() {
        Route::Help
    } else {
        Route::General
    }
}

/// What a command outside the game groups does, given the game of the
/// user's current quiz.
#[derive(PartialEq, Eq, Structural, Clone, Copy, Debug)]
pub enum GeneralAction {
    Answer(QuizType),
    GiveUp(QuizType),
    Unknown,
}

pub open spec fn general_action_of(subcommand: Seq<char>, quiz_type: QuizType) -> GeneralAction {
    if subcommand == "ans"@ {
        GeneralAction::Answer(quiz_type)
    } else if subcommand == "giveup"@ {
        GeneralAction::GiveUp(quiz_type)
    } else {
        GeneralAction::Unknown
    }
}

pub fn general_action(subcommand: &str, quiz_type: QuizType) -> (r: GeneralAction)
    ensures
        r == general_action_of(subcommand@, quiz_type),
{
    let sub = subcommand.to_owned();
    if sub == "ans".to_owned() {
        GeneralAction::Answer(quiz_type)
    } else if sub == "giveup".to_owned() {
        GeneralAction::GiveUp(quiz_type)
    } else {
        GeneralAction::Unknown
    }
}

} // verus!
