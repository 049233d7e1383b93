//! The records that the pipeline and the handlers work on.

use vstd::prelude::*;
use vstd::string::StringExecFns;
use vstd::utf8::{decode_utf8, valid_utf8};
use crate::errors::TemplateError;
use crate::text::text_of_bytes;

verus! {

/// One game card.
#[derive(Debug, PartialEq, Eq)]
pub struct Card {
    pub id: i32,
    pub cardclass: String,
    pub action: i32,
    pub speed: i32,
    pub initiative: i32,
    pub name: String,
    pub desc: String,
    pub image_url: String,
}

/// What a card holds, as mathematical values.
pub ghost struct CardView {
    pub id: int,
    pub cardclass: Seq<char>,
    pub action: int,
    pub speed: int,
    pub initiative: int,
    pub name: Seq<char>,
    pub desc: Seq<char>,
    pub image_url: Seq<char>,
}

impl View for Card {
    type V = CardView;

    open spec fn view(&self) -> CardView {
        CardView {
            id: self.id as int,
            cardclass: self.cardclass@,
            action: self.action as int,
            speed: self.speed as int,
            initiative: self.initiative as int,
            name: self.name@,
            desc: self.desc@,
            image_url: self.image_url@,
        }
    }
}

impl Clone for Card {
    fn clone(&self) -> (copy: Card)
        ensures
            copy@ == self@,
    {
        Card {
            id: self.id,
            cardclass: self.cardclass.clone(),
            action: self.action,
            speed: self.speed,
            initiative: self.initiative,
            name: self.name.clone(),
            desc: self.desc.clone(),
            image_url: self.image_url.clone(),
        }
    }
}

/// A card as a store hands it out: its texts are bytes that have not been
/// looked at yet.
#[derive(Debug, PartialEq, Eq)]
pub struct RawCard {
    pub id: i32,
    pub cardclass: Vec<u8>,
    pub action: i32,
    pub speed: i32,
    pub initiative: i32,
    pub name: Vec<u8>,
    pub desc: Vec<u8>,
    pub image_url: Vec<u8>,
}

impl RawCard {
    /// The card that this record holds, where all its texts are UTF-8: each
    /// text decoded, each number as it is. Else the name of the first field,
    /// in the order `cardclass`, `name`, `desc`, `image_url`, that is not
    /// UTF-8.
    pub open spec fn decoded(self) -> Result<CardView, Seq<char>> {
        if !valid_utf8(self.cardclass@) {
            Err("cardclass"@)
        } else if !valid_utf8(self.name@) {
            Err("name"@)
        } else if !valid_utf8(self.desc@) {
            Err("desc"@)
        } else if !valid_utf8(self.image_url@) {
            Err("image_url"@)
        } else {
            Ok(
                CardView {
                    id: self.id as int,
                    cardclass: decode_utf8(self.cardclass@),
                    action: self.action as int,
                    speed: self.speed as int,
                    initiative: self.initiative as int,
                    name: decode_utf8(self.name@),
                    desc: decode_utf8(self.desc@),
                    image_url: decode_utf8(self.image_url@),
                },
            )
        }
    }
}

impl Card {
    /// Reads a raw record as a card. Fails, naming the field, where a text of
    /// the record is not UTF-8 and so has no place in a document.
    pub fn from_raw(raw: RawCard) -> (card: Result<Card, TemplateError>)
        ensures
            match card {
                Ok(read) => raw.decoded() == Ok::<CardView, Seq<char>>(read@),
                Err(TemplateError::Unrepresentable(field)) => raw.decoded() == Err::<
                    CardView,
                    Seq<char>,
                >(field@),
            },
    {
        let cardclass = match text_of_bytes(raw.cardclass) {
            Some(text) => text,
            None => {
                return Err(TemplateError::Unrepresentable(String::from_str("cardclass")));
            },
        };
        let name = match text_of_bytes(raw.name) {
            Some(text) => text,
            None => {
                return Err(TemplateError::Unrepresentable(String::from_str("name")));
            },
        };
        let desc = match text_of_bytes(raw.desc) {
            Some(text) => text,
            None => {
                return Err(TemplateError::Unrepresentable(String::from_str("desc")));
            },
        };
        let image_url = match text_of_bytes(raw.image_url) {
            Some(text) => text,
            None => {
                return Err(TemplateError::Unrepresentable(String::from_str("image_url")));
            },
        };
        Ok(
            Card {
                id: raw.id,
                cardclass,
                action: raw.action,
                speed: raw.speed,
                initiative: raw.initiative,
                name,
                desc,
                image_url,
            },
        )
    }
}

/// The views of a sequence of cards, in order.
pub open spec fn card_views(cards: Seq<Card>) -> Seq<CardView> {
    Seq::new(cards.len(), |i: int| cards[i]@)
}

/// A tag on a card: a key and its value, tied to the card by `card_id`.
#[derive(Debug, PartialEq, Eq)]
pub struct CardAttribute {
    pub card_id: i32,
    pub key: String,
    pub value: String,
}

/// What a card attribute holds, as mathematical values.
pub ghost struct CardAttributeView {
    pub card_id: int,
    pub key: Seq<char>,
    pub value: Seq<char>,
}

impl View for CardAttribute {
    type V = CardAttributeView;

    open spec fn view(&self) -> CardAttributeView {
        CardAttributeView { card_id: self.card_id as int, key: self.key@, value: self.value@ }
    }
}

impl Clone for CardAttribute {
    fn clone(&self) -> (copy: CardAttribute)
        ensures
            copy@ == self@,
    {
        CardAttribute {
            card_id: self.card_id,
            key: self.key.clone(),
            value: self.value.clone(),
        }
    }
}

/// The views of a sequence of card attributes, in order.
pub open spec fn attribute_views(attributes: Seq<CardAttribute>) -> Seq<CardAttributeView> {
    Seq::new(attributes.len(), |i: int| attributes[i]@)
}

/// A card together with its attributes.
#[derive(Debug, PartialEq, Eq)]
pub struct FullCardData {
    pub id: i32,
    pub cardclass: String,
    pub action: i32,
    pub speed: i32,
    pub initiative: i32,
    pub name: String,
    pub desc: String,
    pub image_url: String,
    pub card_attributes: Vec<CardAttribute>,
}

impl FullCardData {
    /// The card that this record carries.
    pub open spec fn card(&self) -> CardView {
        CardView {
            id: self.id as int,
            cardclass: self.cardclass@,
            action: self.action as int,
            speed: self.speed as int,
            initiative: self.initiative as int,
            name: self.name@,
            desc: self.desc@,
            image_url: self.image_url@,
        }
    }

    /// The attributes that this record carries.
    pub open spec fn attributes(&self) -> Seq<CardAttributeView> {
        attribute_views(self.card_attributes@)
    }

    /// Joins a card and its attributes into one record.
    pub fn new(card: Card, card_attributes: Vec<CardAttribute>) -> (full: FullCardData)
        ensures
            full.card() == card@,
            full.card_attributes == card_attributes,
    {
        FullCardData {
            id: card.id,
            cardclass: card.cardclass,
            action: card.action,
            speed: card.speed,
            initiative: card.initiative,
            name: card.name,
            desc: card.desc,
            image_url: card.image_url,
            card_attributes,
        }
    }
}

} // verus!
