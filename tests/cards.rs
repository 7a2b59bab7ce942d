use ygo_quiz_bot::clue::{clean_card_text, mask_card_name, split_lines};
use ygo_quiz_bot::mtg::{scryfall_card, search_query};
use ygo_quiz_bot::ygo::page::card_page;
use ygo_quiz_bot::ygo::{card_page_url, card_ref, search_params};

#[test]
fn masks_every_occurrence_of_the_name() {
    assert_eq!(
        mask_card_name("稲妻は稲妻を呼ぶ。", "稲妻"),
        "<カード名>は<カード名>を呼ぶ。"
    );
    assert_eq!(mask_card_name("何もない", "稲妻"), "何もない");
}

#[test]
fn splits_at_line_feeds() {
    assert_eq!(split_lines("a\nbc\n"), vec!["a", "bc", ""]);
    assert_eq!(split_lines(""), vec![""]);
    assert_eq!(split_lines("一行"), vec!["一行"]);
}

#[test]
fn cleans_the_card_text_block() {
    let html = "<div class=\"text_title\">\nカードテキスト\n</div>\n  このカードは<br>ブルーアイズです。  \n\n";
    assert_eq!(
        clean_card_text(html, "ブルーアイズ"),
        "カードテキスト\nこのカードは\n<カード名>です。"
    );
    assert_eq!(clean_card_text("\n \n", "x"), "");
}

#[test]
fn reads_a_card_page() {
    let html = "<html><body><div id=\"cardname\"><h1>\n<span class=\"ruby\">せいがんのはくりゅう</span>青眼の白龍\n</h1></div>\
<div id=\"CardTextSet\"><div class=\"item_box_text\">\n<div class=\"text_title\">\nカードテキスト\n</div>\n高い攻撃力を誇る<br>伝説のドラゴン。青眼の白龍。\n</div></div></body></html>";
    let page = card_page(html).unwrap();
    assert_eq!(page.card_name, "青眼の白龍");
    assert_eq!(page.card_name_ruby, "せいがんのはくりゅう");
    assert_eq!(page.card_text, "カードテキスト\n高い攻撃力を誇る\n伝説のドラゴン。<カード名>。");
}

#[test]
fn a_page_without_the_name_heading_fails() {
    let r = card_page("<html><body><p>no card</p></body></html>");
    assert_eq!(r.unwrap_err(), "遊戯王DBの解析失敗");
    let r = card_page("<html><body><div id=\"cardname\"><h1>only</h1></div></body></html>");
    assert_eq!(r.unwrap_err(), "遊戯王DBの解析失敗");
}

#[test]
fn scryfall_query_by_format_and_rarity() {
    assert_eq!(search_query("standard", true), "lang:japanese f:standard r>=r");
    assert_eq!(search_query("pioneer", false), "lang:japanese f:pioneer");
    assert_eq!(search_query("modern", true), "lang:japanese f:modern r>=r");
    assert_eq!(search_query("eternal", false), "lang:japanese");
    assert_eq!(search_query("", true), "lang:japanese r>=r");
}

#[test]
fn reads_a_scryfall_card() {
    let json = r#"{"printed_name":"稲妻","printed_text":"稲妻は3点のダメージを与える。","name":"Lightning Bolt","scryfall_uri":"https://scryfall.com/card/a/1","image_uris":{"art_crop":"https://img.example/a.jpg"}}"#;
    let card = scryfall_card(json).unwrap();
    assert_eq!(card.card_name, "稲妻");
    assert_eq!(card.english_name, "Lightning Bolt");
    assert_eq!(card.card_text, "<カード名>は3点のダメージを与える。");
    assert_eq!(card.scryfall_uri, "https://scryfall.com/card/a/1");
    assert_eq!(card.image_uri, "https://img.example/a.jpg");
}

#[test]
fn a_scryfall_card_without_art_has_no_image() {
    let json = r#"{"printed_name":"稲妻","printed_text":"x","name":"Lightning Bolt","scryfall_uri":"u"}"#;
    assert_eq!(scryfall_card(json).unwrap().image_uri, "");
}

#[test]
fn a_scryfall_card_without_printed_name_fails() {
    let json = r#"{"printed_text":"x","name":"Lightning Bolt","scryfall_uri":"u"}"#;
    assert_eq!(scryfall_card(json).unwrap_err(), "API応答の解析失敗");
    assert!(scryfall_card("not json").is_err());
}

#[test]
fn ygo_search_params() {
    let p = search_params(None);
    let expected: Vec<(String, String)> = vec![
        ("num".into(), "1".into()),
        ("offset".into(), "0".into()),
        ("sort".into(), "random".into()),
        ("cachebust".into(), "".into()),
        ("misc".into(), "yes".into()),
    ];
    assert_eq!(p, expected);
    let p = search_params(Some("ドラゴン"));
    assert_eq!(p.len(), 6);
    assert_eq!(p[5], ("fname".to_string(), "ドラゴン".to_string()));
}

#[test]
fn reads_a_card_search_answer() {
    let json = r#"{"data":[{"name":"Blue-Eyes","misc_info":[{"konami_id":4007}],"card_images":[{"image_url_cropped":"https://img.example/b.jpg"}]}]}"#;
    let c = card_ref(json).unwrap();
    assert_eq!(c.konami_id, 4007);
    assert_eq!(c.image_url, "https://img.example/b.jpg");
    let json = r#"{"data":[{"misc_info":[{"konami_id":4007}]}]}"#;
    assert_eq!(card_ref(json).unwrap().image_url, "");
}

#[test]
fn a_card_search_answer_without_id_fails() {
    assert_eq!(card_ref(r#"{"data":[]}"#).unwrap_err(), "API 応答の解析失敗");
    assert_eq!(card_ref(r#"{"data":[{"misc_info":[{"konami_id":"4007"}]}]}"#).unwrap_err(), "API 応答の解析失敗");
    assert!(card_ref("{").is_err());
}

#[test]
fn card_page_address() {
    assert_eq!(
        card_page_url(4007),
        "https://www.db.yugioh-card.com/yugiohdb/card_search.action?ope=2&cid=4007&request_locale=ja"
    );
    assert_eq!(
        card_page_url(-12),
        "https://www.db.yugioh-card.com/yugiohdb/card_search.action?ope=2&cid=-12&request_locale=ja"
    );
    assert!(card_page_url(0).contains("cid=0&"));
}

#[test]
fn a_scryfall_answer_that_is_not_json_keeps_the_parser_error() {
    let e = scryfall_card("{").unwrap_err();
    assert_ne!(e, "API応答の解析失敗");
    assert!(!e.is_empty());
}
