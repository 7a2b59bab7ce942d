//! The texts the bot replies with.
use vstd::prelude::*;

verus! {

pub open spec fn help_text_of() -> Seq<char> {
    "Help:\nクイズを出すので回答してください\nユーザーごとに別の問題に取り組むことができます。\n\nCommands:\n- `/quiz <type> new` - 開始\n- `/quiz ans <answer>` - 回答\n- `/quiz giveup` - 問題を諦める\n- `/quiz help` - このヘルプを表示\n"@
}

/// The reply to `/quiz help`.
pub fn help_text() -> (r: String)
    ensures
        r@ == help_text_of(),
{
    "Help:\nクイズを出すので回答してください\nユーザーごとに別の問題に取り組むことができます。\n\nCommands:\n- `/quiz <type> new` - 開始\n- `/quiz ans <answer>` - 回答\n- `/quiz giveup` - 問題を諦める\n- `/quiz help` - このヘルプを表示\n".to_owned()
}

pub open spec fn answer_reply_of(
    mention: Seq<char>,
    answer: Seq<char>,
    correct: bool,
    link: Seq<char>,
) -> Seq<char> {
    mention + "の回答："@ + answer + if correct {
        "\n\n正解！ \n "@ + link
    } else {
        "\n\n不正解..."@
    }
}

/// The reply to an answer: who answered what, and whether it was right;
/// a right answer comes with a link to the card.
pub fn answer_reply(mention: &str, answer: &str, correct: bool, link: &str) -> (r: String)
    ensures
        r@ == answer_reply_of(mention@, answer@, correct, link@),
{
    let mut s = mention.to_owned();
    s.append("の回答：");
    s.append(answer);
    let ghost head = s@;
    if correct {
        s.append("\n\n正解！ \n ");
        s.append(link);
        assert(s@ =~= head + ("\n\n正解！ \n "@ + link@));
    } else {
        s.append("\n\n不正解...");
    }
    s
}

pub open spec fn giveup_reply_of(name: Seq<char>, alternate: Seq<char>, link: Seq<char>) -> Seq<
    char,
> {
    "正解は「"@ + name + "」（"@ + alternate + "）でした \n "@ + link
}

/// The reply to giving up: the card's name, its alternate name, and a link
/// to the card.
pub fn giveup_reply(name: &str, alternate: &str, link: &str) -> (r: String)
    ensures
        r@ == giveup_reply_of(name@, alternate@, link@),
{
    let mut s = "正解は「".to_owned();
    s.append(name);
    s.append("」（");
    s.append(alternate);
    s.append("）でした \n ");
    s.append(link);
    s
}

/// The reply to a subcommand that no handler knows.
pub fn unknown_command_reply() -> (r: String)
    ensures
        r@ == "謎のコマンド"@,
{
    "謎のコマンド".to_owned()
}

/// The reply to a subcommand that a game group does not know.
pub fn unknown_subcommand_reply(subcommand: &str) -> (r: String)
    ensures
        r@ == "Unknown Command: "@ + subcommand@,
{
    let mut s = "Unknown Command: ".to_owned();
    s.append(subcommand);
    s
}

pub open spec fn missing_quiz_reply_of(start_command: Seq<char>, error: Seq<char>) -> Seq<char> {
    "データベースでエラーが発生しました (`"@ + start_command + "` は実行しましたか？) : "@ + error
}

/// The reply when the user's quiz cannot be read: the database's error, and
/// the command that would have started a quiz.
pub fn missing_quiz_reply(start_command: &str, error: &str) -> (r: String)
    ensures
        r@ == missing_quiz_reply_of(start_command@, error@),
{
    let mut s = "データベースでエラーが発生しました (`".to_owned();
    s.append(start_command);
    s.append("` は実行しましたか？) : ");
    s.append(error);
    s
}

/// The reply when a new quiz cannot be stored: the database's error.
pub fn database_error_reply(error: &str) -> (r: String)
    ensures
        r@ == "データベースでエラーが発生しました："@ + error@,
{
    let mut s = "データベースでエラーが発生しました：".to_owned();
    s.append(error);
    s
}

} // verus!
