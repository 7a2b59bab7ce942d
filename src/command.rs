//! The slash command tree the bot registers, as plain values.
use vstd::prelude::*;
use crate::{mtg, ygo};

verus! {

/// What an option of a slash command is.
#[derive(PartialEq, Eq, Structural, Clone, Copy, Debug)]
pub enum OptionKind {
    SubCommand,
    SubCommandGroup,
    Text,
    Boolean,
}

/// A fixed value offered for a text option: shown as `name`, sent as `value`.
#[derive(Debug)]
pub struct Choice {
    pub name: String,
    pub value: String,
}

/// One option of a slash command, with its own options below it.
#[derive(Debug)]
pub struct CommandOption {
    pub kind: OptionKind,
    pub name: String,
    pub description: String,
    pub required: bool,
    pub choices: Vec<Choice>,
    pub options: Vec<CommandOption>,
}

/// A slash command with its options.
#[derive(Debug)]
pub struct SlashCommand {
    pub name: String,
    pub description: String,
    pub options: Vec<CommandOption>,
}

pub open spec fn option_is(
    o: CommandOption,
    kind: OptionKind,
    name: Seq<char>,
    description: Seq<char>,
    required: bool,
) -> bool {
    &&& o.kind == kind
    &&& o.name@ == name
    &&& o.description@ == description
    &&& o.required == required
}

/// An option with neither choices nor options below it.
pub open spec fn is_leaf(o: CommandOption) -> bool {
    o.choices@.len() == 0 && o.options@.len() == 0
}

pub open spec fn choice_is(c: Choice, name: Seq<char>, value: Seq<char>) -> bool {
    c.name@ == name && c.value@ == value
}

impl CommandOption {
    pub fn new(kind: OptionKind, name: &str, description: &str) -> (r: CommandOption)
        ensures
            option_is(r, kind, name@, description@, false),
            is_leaf(r),
    {
        CommandOption {
            kind,
            name: name.to_owned(),
            description: description.to_owned(),
            required: false,
            choices: Vec::new(),
            options: Vec::new(),
        }
    }

    pub fn description(self, description: &str) -> (r: CommandOption)
        ensures
            r.description@ == description@,
            r.kind == self.kind,
            r.name == self.name,
            r.required == self.required,
            r.choices == self.choices,
            r.options == self.options,
    {
        CommandOption { description: description.to_owned(), ..self }
    }

    pub fn required(self, required: bool) -> (r: CommandOption)
        ensures
            r.required == required,
            r.kind == self.kind,
            r.name == self.name,
            r.description == self.description,
            r.choices == self.choices,
            r.options == self.options,
    {
        CommandOption { required, ..self }
    }

    pub fn add_string_choice(self, name: &str, value: &str) -> (r: CommandOption)
        ensures
            r.choices@.len() == self.choices@.len() + 1,
            r.choices@.take(self.choices@.len() as int) == self.choices@,
            choice_is(r.choices@.last(), name@, value@),
            r.kind == self.kind,
            r.name == self.name,
            r.description == self.description,
            r.required == self.required,
            r.options == self.options,
    {
        let mut choices = self.choices;
        let ghost before = choices@;
        choices.push(Choice { name: name.to_owned(), value: value.to_owned() });
        assert(choices@.take(before.len() as int) =~= before);
        CommandOption { choices, ..self }
    }

    pub fn add_sub_option(self, option: CommandOption) -> (r: CommandOption)
        ensures
            r.options@ == self.options@.push(option),
            r.kind == self.kind,
            r.name == self.name,
            r.description == self.description,
            r.required == self.required,
            r.choices == self.choices,
    {
        let mut options = self.options;
        options.push(option);
        CommandOption { options, ..self }
    }
}

impl SlashCommand {
    pub fn new(name: &str) -> (r: SlashCommand)
        ensures
            r.name@ == name@,
            r.description@.len() == 0,
            r.options@.len() == 0,
    {
        SlashCommand { name: name.to_owned(), description: String::new(), options: Vec::new() }
    }

    pub fn description(self, description: &str) -> (r: SlashCommand)
        ensures
            r.description@ == description@,
            r.name == self.name,
            r.options == self.options,
    {
        SlashCommand { description: description.to_owned(), ..self }
    }

    pub fn add_option(self, option: CommandOption) -> (r: SlashCommand)
        ensures
            r.options@ == self.options@.push(option),
            r.name == self.name,
            r.description == self.description,
    {
        let mut options = self.options;
        options.push(option);
        SlashCommand { options, ..self }
    }
}

/// A subcommand group of one game: `name`, with the game's description and
/// its `new` subcommand.
pub open spec fn is_game_group(o: CommandOption, name: Seq<char>) -> bool {
    &&& o.kind == OptionKind::SubCommandGroup
    &&& o.name@ == name
    &&& !o.required
    &&& o.choices@.len() == 0
    &&& o.options@.len() == 1
}

/// The `quiz` command: `ans <answer>`, `giveup`, `help`, and a group for
/// each game.
pub open spec fn is_quiz_command(c: SlashCommand) -> bool {
    &&& c.name@ == "quiz"@
    &&& c.description@ == "Communicate with quiz bot"@
    &&& c.options@.len() == 5
    &&& option_is(c.options@[0], OptionKind::SubCommand, "ans"@, "Answer to quiz"@, false)
    &&& c.options@[0].choices@.len() == 0
    &&& c.options@[0].options@.len() == 1
    &&& option_is(c.options@[0].options@[0], OptionKind::Text, "answer"@, "The answer"@, true)
    &&& is_leaf(c.options@[0].options@[0])
    &&& option_is(c.options@[1], OptionKind::SubCommand, "giveup"@, "Giveup quiz"@, false)
    &&& is_leaf(c.options@[1])
    &&& option_is(c.options@[2], OptionKind::SubCommand, "help"@, "Help of quiz bot"@, false)
    &&& is_leaf(c.options@[2])
    &&& is_game_group(c.options@[3], "ygo"@)
    &&& c.options@[3].description@ == "Communicate with Yu-gi-oh! quiz bot"@
    &&& ygo::is_new_subcommand(c.options@[3].options@[0])
    &&& is_game_group(c.options@[4], "mtg"@)
    &&& c.options@[4].description@ == "Communicate with Magic:the Gathering! quiz bot"@
    &&& mtg::is_new_subcommand(c.options@[4].options@[0])
}

/// The command the bot registers.
pub fn quiz_command() -> (r: SlashCommand)
    ensures
        is_quiz_command(r),
{
    let ans = CommandOption::new(OptionKind::SubCommand, "ans", "Answer to quiz").add_sub_option(
        CommandOption::new(OptionKind::Text, "answer", "The answer").required(true),
    );
    let giveup = CommandOption::new(OptionKind::SubCommand, "giveup", "Giveup quiz");
    let help = CommandOption::new(OptionKind::SubCommand, "help", "Help of quiz bot");
    let ygo_group = ygo::create_subcommand(
        CommandOption::new(OptionKind::SubCommandGroup, "ygo", ""),
    );
    let mtg_group = mtg::create_subcommand(
        CommandOption::new(OptionKind::SubCommandGroup, "mtg", ""),
    );
    SlashCommand::new("quiz").description("Communicate with quiz bot").add_option(ans).add_option(
        giveup,
    ).add_option(help).add_option(ygo_group).add_option(mtg_group)
}

} // verus!
