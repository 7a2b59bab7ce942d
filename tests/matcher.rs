use ygo_quiz_bot::matcher::{
    category, hiragana_of, is_accepted, name_matches, other_width_digit, roughly_card_name_equal,
    Category,
};

#[test]
fn a_name_answers_itself() {
    for name in ["ブルーアイズ・ホワイト・ドラゴン", "Lightning Bolt", "No.10", "Ｎｏ．１０", "", "―　－ ・"] {
        assert!(roughly_card_name_equal(name, name, "anything"));
        assert!(roughly_card_name_equal(name, name, ""));
    }
}

#[test]
fn full_width_digits_take_half_width_ones() {
    assert!(roughly_card_name_equal("Ｎｏ．10", "Ｎｏ．１０", ""));
    assert!(roughly_card_name_equal("Ｎｏ．1０", "Ｎｏ．１０", ""));
}

#[test]
fn half_width_digits_take_full_width_ones() {
    assert!(roughly_card_name_equal("No.１０", "No.10", ""));
}

#[test]
fn digits_do_not_widen_letters() {
    assert!(!roughly_card_name_equal("No.10", "Ｎｏ．１０", ""));
}

#[test]
fn katakana_takes_hiragana() {
    assert!(roughly_card_name_equal("かーど", "カード", ""));
    assert!(roughly_card_name_equal("カーど", "カード", ""));
    assert!(roughly_card_name_equal("ぁん", "ァン", ""));
}

#[test]
fn hiragana_reference_does_not_take_katakana() {
    assert!(!roughly_card_name_equal("カード", "かーど", ""));
}

#[test]
fn dash_takes_long_vowel_mark() {
    assert!(roughly_card_name_equal("ABCーDEF", "ABC―DEF", ""));
    assert!(roughly_card_name_equal("ABC－DEF", "ABC―DEF", ""));
    assert!(roughly_card_name_equal("ABC―DEF", "ABC－DEF", ""));
}

#[test]
fn middle_dot_may_be_left_out() {
    assert!(roughly_card_name_equal("ブルーアイズ", "ブルー・アイズ", ""));
}

#[test]
fn spaces_and_dashes_may_be_left_out() {
    assert!(roughly_card_name_equal("LightningBolt", "Lightning Bolt", ""));
    assert!(roughly_card_name_equal("Lightning　Bolt", "Lightning Bolt", ""));
    assert!(roughly_card_name_equal("AB", "A―B", ""));
}

#[test]
fn punctuation_is_exact_when_present() {
    assert!(!roughly_card_name_equal("No.10", "No・10", ""));
}

#[test]
fn trailing_spaces_are_ignored() {
    assert!(roughly_card_name_equal("ブルーアイズ   ", "ブルーアイズ", ""));
    assert!(roughly_card_name_equal("ブルーアイズ　 ", "ブルーアイズ", ""));
}

#[test]
fn trailing_other_characters_fail() {
    assert!(!roughly_card_name_equal("ブルーアイズX", "ブルーアイズ", ""));
    assert!(!roughly_card_name_equal("ブルーアイズ X", "ブルーアイズ", ""));
}

#[test]
fn alternate_name_is_tried_second() {
    assert!(roughly_card_name_equal("Lightning Bolt", "稲妻", "Lightning Bolt"));
    assert!(roughly_card_name_equal("稲妻", "稲妻", "Lightning Bolt"));
    assert!(!roughly_card_name_equal("Lightning", "稲妻", "Lightning Bolt"));
}

#[test]
fn one_hard_mismatch_fails() {
    assert!(!roughly_card_name_equal("ブルーアイス", "ブルーアイズ", ""));
    assert!(!roughly_card_name_equal("Xightning Bolt", "Lightning Bolt", ""));
    assert!(!roughly_card_name_equal("No.11", "No.10", ""));
}

#[test]
fn a_missing_hard_character_fails() {
    assert!(!roughly_card_name_equal("ブルーアイ", "ブルーアイズ", ""));
    assert!(!name_matches("", "a"));
}

#[test]
fn empty_reference_takes_blank_answers_only() {
    assert!(name_matches("", ""));
    assert!(name_matches("  　", ""));
    assert!(!name_matches("a", ""));
}

#[test]
fn a_dash_takes_the_long_vowel_mark_greedily() {
    assert!(!name_matches("ー", "―ー"));
    assert!(name_matches("―ー", "―ー"));
}

#[test]
fn categories() {
    assert_eq!(category('０'), Category::FullWidthDigit);
    assert_eq!(category('９'), Category::FullWidthDigit);
    assert_eq!(category('0'), Category::HalfWidthDigit);
    assert_eq!(category('9'), Category::HalfWidthDigit);
    assert_eq!(category('ァ'), Category::Katakana);
    assert_eq!(category('ン'), Category::Katakana);
    assert_eq!(category('ー'), Category::Other);
    assert_eq!(category(' '), Category::Whitespace);
    assert_eq!(category('　'), Category::Whitespace);
    assert_eq!(category('―'), Category::Dash);
    assert_eq!(category('－'), Category::Dash);
    assert_eq!(category('・'), Category::Punctuation);
    assert_eq!(category('.'), Category::Punctuation);
    assert_eq!(category('．'), Category::Punctuation);
    assert_eq!(category('a'), Category::Other);
    assert!(Category::Dash.is_soft());
    assert!(!Category::Katakana.is_soft());
}

#[test]
fn counterparts() {
    assert_eq!(other_width_digit('５'), Some('5'));
    assert_eq!(other_width_digit('0'), Some('０'));
    assert_eq!(other_width_digit('a'), None);
    assert_eq!(hiragana_of('カ'), Some('か'));
    assert_eq!(hiragana_of('ァ'), Some('ぁ'));
    assert_eq!(hiragana_of('ン'), Some('ん'));
    assert_eq!(hiragana_of('ー'), None);
    assert_eq!(hiragana_of('か'), None);
}

#[test]
fn acceptance_of_single_characters() {
    assert!(is_accepted('１', '1'));
    assert!(is_accepted('１', '１'));
    assert!(!is_accepted('１', '2'));
    assert!(is_accepted('1', '１'));
    assert!(is_accepted('ド', 'ど'));
    assert!(is_accepted(' ', '　'));
    assert!(is_accepted('－', 'ー'));
    assert!(!is_accepted('．', '.'));
    assert!(!is_accepted('ー', '―'));
}
