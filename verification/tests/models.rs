use cardego_server::errors::TemplateError;
use cardego_server::models::{Card, CardAttribute, FullCardData, RawCard};

fn raw(cardclass: &[u8], name: &[u8], desc: &[u8], image_url: &[u8]) -> RawCard {
    RawCard {
        id: 1,
        cardclass: cardclass.to_vec(),
        action: 1,
        speed: 2,
        initiative: 0,
        name: name.to_vec(),
        desc: desc.to_vec(),
        image_url: image_url.to_vec(),
    }
}

#[test]
fn raw_card_with_utf8_texts_is_a_card() {
    let card = Card::from_raw(raw(b"spell", b"Fireball", b"Deals 3 damage", b"file:///a.png"));
    let expected = Card {
        id: 1,
        cardclass: String::from("spell"),
        action: 1,
        speed: 2,
        initiative: 0,
        name: String::from("Fireball"),
        desc: String::from("Deals 3 damage"),
        image_url: String::from("file:///a.png"),
    };
    assert_eq!(card, Ok(expected));
}

#[test]
fn raw_card_keeps_text_beyond_ascii() {
    let card = Card::from_raw(raw(b"", "Feu \u{1f525}".as_bytes(), b"", b"")).unwrap();
    assert_eq!(card.name, "Feu \u{1f525}");
    assert_eq!(card.cardclass, "");
}

#[test]
fn raw_card_names_the_field_that_is_no_text() {
    let bad: &[u8] = &[0xc3, 0x28];
    assert_eq!(
        Card::from_raw(raw(bad, b"n", b"d", b"u")),
        Err(TemplateError::Unrepresentable(String::from("cardclass")))
    );
    assert_eq!(
        Card::from_raw(raw(b"c", bad, b"d", b"u")),
        Err(TemplateError::Unrepresentable(String::from("name")))
    );
    assert_eq!(
        Card::from_raw(raw(b"c", b"n", bad, b"u")),
        Err(TemplateError::Unrepresentable(String::from("desc")))
    );
    assert_eq!(
        Card::from_raw(raw(b"c", b"n", b"d", bad)),
        Err(TemplateError::Unrepresentable(String::from("image_url")))
    );
}

#[test]
fn raw_card_names_the_first_bad_field() {
    let bad: &[u8] = &[0xff];
    assert_eq!(
        Card::from_raw(raw(b"c", bad, bad, bad)),
        Err(TemplateError::Unrepresentable(String::from("name")))
    );
    let truncated: &[u8] = &[0xe2, 0x82];
    assert_eq!(
        Card::from_raw(raw(b"c", b"n", truncated, bad)),
        Err(TemplateError::Unrepresentable(String::from("desc")))
    );
}

#[test]
fn clones_hold_the_same() {
    let card = Card {
        id: 3,
        cardclass: String::from("unit"),
        action: 4,
        speed: 5,
        initiative: 6,
        name: String::from("Knight"),
        desc: String::from("Rides"),
        image_url: String::from("http://example.com/k.png"),
    };
    assert_eq!(card.clone(), card);
    let attribute =
        CardAttribute { card_id: 3, key: String::from("armor"), value: String::from("2") };
    assert_eq!(attribute.clone(), attribute);
}

#[test]
fn full_card_data_holds_card_and_attributes() {
    let card = Card {
        id: 3,
        cardclass: String::from("unit"),
        action: 4,
        speed: 5,
        initiative: 6,
        name: String::from("Knight"),
        desc: String::from("Rides"),
        image_url: String::from("http://example.com/k.png"),
    };
    let full = FullCardData::new(card, Vec::new());
    assert_eq!(full.id, 3);
    assert_eq!(full.action, 4);
    assert_eq!(full.speed, 5);
    assert_eq!(full.initiative, 6);
    assert_eq!(full.name, "Knight");
    assert_eq!(full.card_attributes, Vec::new());
}
