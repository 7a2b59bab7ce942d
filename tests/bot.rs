use ygo_quiz_bot::bot::{general_action, route_interaction, GeneralAction, Route};
use ygo_quiz_bot::command::{quiz_command, CommandOption, OptionKind};
use ygo_quiz_bot::db::QuizType;
use ygo_quiz_bot::reply::{
    answer_reply, database_error_reply, giveup_reply, help_text, missing_quiz_reply,
    unknown_command_reply, unknown_subcommand_reply,
};
use ygo_quiz_bot::{mtg, ygo};

#[test]
fn routes_quiz_commands() {
    assert_eq!(route_interaction(false, "quiz", "ygo"), Route::Ygo);
    assert_eq!(route_interaction(false, "quiz", "mtg"), Route::Mtg);
    assert_eq!(route_interaction(false, "quiz", "help"), Route::Help);
    assert_eq!(route_interaction(false, "quiz", "ans"), Route::General);
    assert_eq!(route_interaction(true, "quiz", "ans"), Route::Ignore);
    assert_eq!(route_interaction(false, "other", "ans"), Route::Ignore);
}

#[test]
fn general_commands_go_by_quiz_type() {
    assert_eq!(general_action("ans", QuizType::Ygo), GeneralAction::Answer(QuizType::Ygo));
    assert_eq!(general_action("giveup", QuizType::Mtg), GeneralAction::GiveUp(QuizType::Mtg));
    assert_eq!(general_action("help", QuizType::Mtg), GeneralAction::Unknown);
}

#[test]
fn quiz_command_tree() {
    let c = quiz_command();
    assert_eq!(c.name, "quiz");
    assert_eq!(c.description, "Communicate with quiz bot");
    let names: Vec<&str> = c.options.iter().map(|o| o.name.as_str()).collect();
    assert_eq!(names, vec!["ans", "giveup", "help", "ygo", "mtg"]);
    assert_eq!(c.options[0].options[0].name, "answer");
    assert!(c.options[0].options[0].required);
    assert_eq!(c.options[3].kind, OptionKind::SubCommandGroup);
    assert_eq!(c.options[3].options[0].options[0].name, "fname");
    let format = &c.options[4].options[0].options[0];
    assert_eq!(format.name, "format");
    assert!(format.required);
    let values: Vec<&str> = format.choices.iter().map(|ch| ch.value.as_str()).collect();
    assert_eq!(values, vec!["standard", "pioneer", "modern", "eternal"]);
    assert_eq!(format.choices[0].name, "スタンダード");
    assert_eq!(c.options[4].options[0].options[1].kind, OptionKind::Boolean);
}

#[test]
fn create_subcommand_keeps_the_group() {
    let g = mtg::create_subcommand(CommandOption::new(OptionKind::SubCommandGroup, "mtg", ""));
    assert_eq!(g.name, "mtg");
    assert_eq!(g.description, "Communicate with Magic:the Gathering! quiz bot");
    assert_eq!(g.options.len(), 1);
    assert_eq!(g.options[0].description, "Start Magic:the Gathering quiz");
    let g = ygo::create_subcommand(CommandOption::new(OptionKind::SubCommandGroup, "ygo", ""));
    assert_eq!(g.description, "Communicate with Yu-gi-oh! quiz bot");
    assert_eq!(g.options[0].name, "new");
    assert!(!g.options[0].options[0].required);
}

#[test]
fn replies() {
    assert_eq!(
        answer_reply("<@1>", "稲妻", true, "https://scryfall.com/card/a/1"),
        "<@1>の回答：稲妻\n\n正解！ \n https://scryfall.com/card/a/1"
    );
    assert_eq!(answer_reply("<@1>", "稲", false, "x"), "<@1>の回答：稲\n\n不正解...");
    assert_eq!(giveup_reply("稲妻", "Lightning Bolt", "u"), "正解は「稲妻」（Lightning Bolt）でした \n u");
    assert!(help_text().starts_with("Help:\n"));
    assert!(help_text().ends_with("- `/quiz help` - このヘルプを表示\n"));
    assert_eq!(unknown_command_reply(), "謎のコマンド");
    assert_eq!(unknown_subcommand_reply("old"), "Unknown Command: old");
}

#[test]
fn prompts() {
    assert_eq!(
        mtg::new_quiz_prompt("<カード名>は3点", "https://img"),
        "次のカードテキストを持つ Magic のカードは？(`/quiz ans` で回答)\n\n<カード名>は3点\nhttps://img"
    );
    assert_eq!(
        ygo::new_quiz_prompt(Some("龍"), "t"),
        "カード名に「龍」が含まれている、次のカードテキストを持つ遊戯王カードは？(`/quiz ans` で回答)\n\nt"
    );
    assert_eq!(
        ygo::new_quiz_prompt(None, "t"),
        "次のカードテキストを持つ遊戯王カードは？(`/quiz ans` で回答)\n\nt"
    );
}

#[test]
fn quizzes_check_both_names() {
    let q = mtg::db::Quiz {
        user_id: 1,
        scryfall_uri: "u".into(),
        card_name: "稲妻".into(),
        english_name: "Lightning Bolt".into(),
        card_text: "t".into(),
    };
    assert!(q.is_correct("Lightning Bolt"));
    assert!(q.is_correct("稲妻 "));
    assert!(!q.is_correct("Bolt"));
    let q = ygo::db::Quiz {
        user_id: 1,
        konami_id: 4007,
        card_name: "青眼の白龍".into(),
        card_name_ruby: "ブルーアイズ・ホワイト・ドラゴン".into(),
        card_text: "t".into(),
    };
    assert!(q.is_correct("ぶるーあいずほわいとどらごん"));
    assert!(q.is_correct("青眼の白龍"));
    assert!(!q.is_correct("白龍"));
}

#[test]
fn database_replies() {
    assert_eq!(
        missing_quiz_reply("/quiz ygo new", "no rows"),
        "データベースでエラーが発生しました (`/quiz ygo new` は実行しましたか？) : no rows"
    );
    assert_eq!(database_error_reply("timeout"), "データベースでエラーが発生しました：timeout");
}
