//! Where the files of the pipeline live. Each path is a function of the card's
//! id or of the deck's name alone, so rendering the same card or deck again
//! writes to the same files.

use vstd::prelude::*;
use vstd::string::StringExecFns;
use crate::text::{decimal_int, lemma_decimal_int_injective, push_decimal_i32};

verus! {

/// Path of the rendered image of the card `id`.
pub open spec fn card_image_path_spec(id: int) -> Seq<char> {
    "runtime/data/cards/images/"@ + decimal_int(id) + ".png"@
}

/// Path of the document of the card `id`.
pub open spec fn card_html_path_spec(id: int) -> Seq<char> {
    "runtime/data/cards/images/templates/"@ + decimal_int(id) + ".html"@
}

/// Path of the retrieved artwork of the card `id`.
pub open spec fn card_art_path_spec(id: int) -> Seq<char> {
    "runtime/data/cards/images/"@ + decimal_int(id) + "-art.png"@
}

/// Path of the rendered sheet of the deck `name`.
pub open spec fn deck_image_path_spec(name: Seq<char>) -> Seq<char> {
    "runtime/data/decks/images/"@ + name + ".png"@
}

/// Path of the document of the deck `name`.
pub open spec fn deck_html_path_spec(name: Seq<char>) -> Seq<char> {
    "runtime/data/decks/images/templates/"@ + name + ".html"@
}

/// Path at which a file is written in full before it is moved to `path`.
pub open spec fn staging_path_spec(path: Seq<char>) -> Seq<char> {
    path + ".tmp"@
}

/// Path of the rendered image of the card `id`.
pub fn card_image_path(id: i32) -> (path: String)
    ensures
        path@ == card_image_path_spec(id as int),
{
    let mut path = String::from_str("runtime/data/cards/images/");
    push_decimal_i32(&mut path, id);
    path.append(".png");
    path
}

/// Path of the document of the card `id`.
pub fn card_html_path(id: i32) -> (path: String)
    ensures
        path@ == card_html_path_spec(id as int),
{
    let mut path = String::from_str("runtime/data/cards/images/templates/");
    push_decimal_i32(&mut path, id);
    path.append(".html");
    path
}

/// Path of the retrieved artwork of the card `id`.
pub fn card_art_path(id: i32) -> (path: String)
    ensures
        path@ == card_art_path_spec(id as int),
{
    let mut path = String::from_str("runtime/data/cards/images/");
    push_decimal_i32(&mut path, id);
    path.append("-art.png");
    path
}

/// Path of the rendered sheet of the deck `name`.
pub fn deck_image_path(name: &str) -> (path: String)
    ensures
        path@ == deck_image_path_spec(name@),
{
    let mut path = String::from_str("runtime/data/decks/images/");
    path.append(name);
    path.append(".png");
    path
}

/// Path of the document of the deck `name`.
pub fn deck_html_path(name: &str) -> (path: String)
    ensures
        path@ == deck_html_path_spec(name@),
{
    let mut path = String::from_str("runtime/data/decks/images/templates/");
    path.append(name);
    path.append(".html");
    path
}

/// Path at which a file is written in full before it is moved to `path`.
pub fn staging_path(path: &str) -> (staging: String)
    ensures
        staging@ == staging_path_spec(path@),
{
    let mut staging = String::from_str(path);
    staging.append(".tmp");
    staging
}

/// A text between a fixed start and a fixed end is told by the whole.
proof fn lemma_middle_is_told(start: Seq<char>, a: Seq<char>, b: Seq<char>, end: Seq<char>)
    requires
        start + a + end == start + b + end,
    ensures
        a == b,
{
    let whole = start + a + end;
    assert(whole.len() == start.len() + a.len() + end.len());
    assert(whole.len() == start.len() + b.len() + end.len());
    let from = start.len() as int;
    assert(a =~= whole.subrange(from, from + a.len()));
    assert(b =~= (start + b + end).subrange(from, from + b.len()));
}

/// Cards of different ids are kept apart: none of the files of one is a
/// file of the same kind of the other.
pub proof fn lemma_card_paths_distinct(a: int, b: int)
    requires
        a != b,
    ensures
        card_image_path_spec(a) != card_image_path_spec(b),
        card_html_path_spec(a) != card_html_path_spec(b),
        card_art_path_spec(a) != card_art_path_spec(b),
{
    if card_image_path_spec(a) == card_image_path_spec(b) {
        lemma_middle_is_told(
            "runtime/data/cards/images/"@,
            decimal_int(a),
            decimal_int(b),
            ".png"@,
        );
        lemma_decimal_int_injective(a, b);
    }
    if card_html_path_spec(a) == card_html_path_spec(b) {
        lemma_middle_is_told(
            "runtime/data/cards/images/templates/"@,
            decimal_int(a),
            decimal_int(b),
            ".html"@,
        );
        lemma_decimal_int_injective(a, b);
    }
    if card_art_path_spec(a) == card_art_path_spec(b) {
        lemma_middle_is_told(
            "runtime/data/cards/images/"@,
            decimal_int(a),
            decimal_int(b),
            "-art.png"@,
        );
        lemma_decimal_int_injective(a, b);
    }
}

/// Decks of different names are kept apart in the same way.
pub proof fn lemma_deck_paths_distinct(a: Seq<char>, b: Seq<char>)
    requires
        a != b,
    ensures
        deck_image_path_spec(a) != deck_image_path_spec(b),
        deck_html_path_spec(a) != deck_html_path_spec(b),
{
    if deck_image_path_spec(a) == deck_image_path_spec(b) {
        lemma_middle_is_told("runtime/data/decks/images/"@, a, b, ".png"@);
    }
    if deck_html_path_spec(a) == deck_html_path_spec(b) {
        lemma_middle_is_told("runtime/data/decks/images/templates/"@, a, b, ".html"@);
    }
}

} // verus!
