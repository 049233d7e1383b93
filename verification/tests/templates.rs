use cardego_server::image::escape::{escape, push_escaped};
use cardego_server::image::generate_card_image_html_string;
use cardego_server::image::templates::{CardsheetTemplate, SingleCardTemplate};
use cardego_server::models::Card;

fn card(id: i32, name: &str, desc: &str) -> Card {
    Card {
        id,
        cardclass: String::from("spell"),
        action: 1,
        speed: 2,
        initiative: 0,
        name: String::from(name),
        desc: String::from(desc),
        image_url: String::from("file:///assets/fireball.png"),
    }
}

fn count(text: &str, pattern: &str) -> usize {
    text.matches(pattern).count()
}

#[test]
fn escape_replaces_the_five_markup_characters() {
    assert_eq!(escape("&"), "&amp;");
    assert_eq!(escape("<"), "&lt;");
    assert_eq!(escape(">"), "&gt;");
    assert_eq!(escape("\""), "&quot;");
    assert_eq!(escape("'"), "&#x27;");
}

#[test]
fn escape_keeps_other_text() {
    assert_eq!(escape(""), "");
    assert_eq!(escape("Deals 3 damage"), "Deals 3 damage");
    assert_eq!(escape("Flamme \u{e9}ternelle \u{1f525}"), "Flamme \u{e9}ternelle \u{1f525}");
}

#[test]
fn escape_of_mixed_text() {
    assert_eq!(escape("a<b & \"c\" > 'd'"), "a&lt;b &amp; &quot;c&quot; &gt; &#x27;d&#x27;");
    assert_eq!(escape("&amp;"), "&amp;amp;");
}

#[test]
fn escape_is_appended_to_what_is_there() {
    let mut out = String::from("<p>");
    push_escaped(&mut out, "1 < 2");
    assert_eq!(out, "<p>1 &lt; 2");
}

#[test]
fn escape_goes_through_concatenation() {
    let a = "x < y";
    let b = "& 'z'";
    let joined = format!("{}{}", a, b);
    assert_eq!(escape(&joined), format!("{}{}", escape(a), escape(b)));
}

#[test]
fn single_card_document_in_full() {
    let html = SingleCardTemplate::new(&card(1, "Fireball", "Deals 3 damage")).render();
    let expected = "<!DOCTYPE html>\n<html>\n<head>\n<meta charset=\"UTF-8\">\n<style>\n\
body{margin:0;width:1050px}\n\
.card{float:left;box-sizing:border-box;overflow:hidden;width:1050px;height:750px}\n\
</style>\n</head>\n<body>\n\
<div class=\"card\">\n<h1 class=\"name\">Fireball</h1>\n\
<p class=\"cardclass\">spell</p>\n<p class=\"action\">1</p>\n<p class=\"speed\">2</p>\n\
<p class=\"initiative\">0</p>\n\
<img class=\"art\" alt=\"\" src=\"file:///assets/fireball.png\">\n\
<p class=\"desc\">Deals 3 damage</p>\n</div>\n</body>\n</html>\n";
    assert_eq!(html, expected);
}

#[test]
fn fireball_document_holds_name_and_description() {
    let html = generate_card_image_html_string(&card(1, "Fireball", "Deals 3 damage"));
    assert!(html.contains("Fireball"));
    assert!(html.contains("Deals 3 damage"));
    assert!(html.starts_with("<!DOCTYPE html>"));
    assert!(html.ends_with("</html>\n"));
}

#[test]
fn markup_in_a_name_is_escaped() {
    let hostile = card(2, "<b>Fire & Ice</b>", "a > b");
    let html = generate_card_image_html_string(&hostile);
    assert!(html.contains("<h1 class=\"name\">&lt;b&gt;Fire &amp; Ice&lt;/b&gt;</h1>"));
    assert!(html.contains("<p class=\"desc\">a &gt; b</p>"));
    assert!(!html.contains("<b>"));
}

#[test]
fn markup_in_fields_does_not_alter_the_structure() {
    let plain = generate_card_image_html_string(&card(3, "Fireball", "Deals 3 damage"));
    let mut hostile_card = card(3, "</h1><script>alert('x')</script>", "\"><img src=\"x\">");
    hostile_card.cardclass = String::from("<i>");
    hostile_card.image_url = String::from("x\" onerror=\"alert(1)");
    let hostile = generate_card_image_html_string(&hostile_card);
    for delimiter in ["<", ">", "\"", "'"] {
        assert_eq!(count(&plain, delimiter), count(&hostile, delimiter));
    }
}

#[test]
fn negative_numbers_are_written_with_a_sign() {
    let mut c = card(4, "Slow", "");
    c.speed = -3;
    c.initiative = i32::MIN;
    let html = generate_card_image_html_string(&c);
    assert!(html.contains("<p class=\"speed\">-3</p>"));
    assert!(html.contains("<p class=\"initiative\">-2147483648</p>"));
}

#[test]
fn cardsheet_holds_one_block_per_card_in_order() {
    let templates: Vec<SingleCardTemplate> = vec![
        SingleCardTemplate::new(&card(1, "Alpha", "first")),
        SingleCardTemplate::new(&card(2, "Beta", "second")),
        SingleCardTemplate::new(&card(3, "Gamma", "third")),
    ];
    let html = CardsheetTemplate { cards: templates }.render();
    assert_eq!(count(&html, "<div class=\"card\">"), 3);
    let alpha = html.find("Alpha").unwrap();
    let beta = html.find("Beta").unwrap();
    let gamma = html.find("Gamma").unwrap();
    assert!(alpha < beta && beta < gamma);
    assert!(html.contains("body{margin:0;width:6300px}"));
    assert!(html.starts_with("<!DOCTYPE html>"));
    assert!(html.ends_with("</body>\n</html>\n"));
}

#[test]
fn empty_cardsheet_is_a_document_without_blocks() {
    let html = CardsheetTemplate { cards: Vec::new() }.render();
    assert_eq!(count(&html, "<div class=\"card\">"), 0);
    assert!(html.ends_with("<body>\n</body>\n</html>\n"));
}

#[test]
fn cardsheet_block_equals_the_block_of_the_single_document() {
    let c = card(9, "Solo", "alone");
    let single = SingleCardTemplate::new(&c).render();
    let sheet = CardsheetTemplate { cards: vec![SingleCardTemplate::new(&c)] }.render();
    let from = single.find("<div class=\"card\">").unwrap();
    let block = &single[from..single.len() - "</body>\n</html>\n".len()];
    assert!(sheet.contains(block));
}

#[test]
fn different_texts_have_different_escaped_forms() {
    let texts = ["<", "&lt;", "&amp;lt;", "&", "&amp;", "\"", "&quot;", "'", "&#x27;", "", "lt;"];
    for a in texts {
        for b in texts {
            assert_eq!(escape(a) == escape(b), a == b);
        }
    }
}

#[test]
fn escaped_text_holds_no_delimiter() {
    let escaped = escape("<a href=\"x\" title='y'>&</a>");
    assert!(!escaped.contains('<'));
    assert!(!escaped.contains('>'));
    assert!(!escaped.contains('"'));
    assert!(!escaped.contains('\''));
    assert_eq!(escaped.matches('&').count(), 9);
}
