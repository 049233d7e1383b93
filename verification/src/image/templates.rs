//! The HTML documents of a single card and of a cardsheet.
//!
//! A document is a fixed skeleton of markup around the fields of the cards.
//! Text fields are escaped, numbers are written in decimal notation, and a
//! cardsheet holds one card block per card, in the order of the deck.

use vstd::prelude::*;
use vstd::string::StringExecFns;
use crate::image::escape::{
    escape_html, is_delimiter, lemma_escaped_has_no_delimiter, push_escaped,
};
use crate::image::layout::{CARD_HEIGHT, CARD_WIDTH, SHEET_COLUMNS};
use crate::models::{Card, CardView};
use crate::text::{
    decimal_int, decimal_nat, lemma_decimal_int_chars, lemma_occurrences_absent,
    lemma_occurrences_concat, occurrences, push_decimal_i32, push_decimal_u64,
};

verus! {

/// Everything of a document that precedes the card blocks, for a page that is
/// `page_width` pixels wide.
pub open spec fn document_head(page_width: nat) -> Seq<char> {
    "<!DOCTYPE html>\n<html>\n<head>\n<meta charset=\"UTF-8\">\n<style>\nbody{margin:0;width:"@
        + decimal_nat(page_width)
        + "px}\n.card{float:left;box-sizing:border-box;overflow:hidden;width:"@
        + decimal_nat(CARD_WIDTH as nat) + "px;height:"@ + decimal_nat(CARD_HEIGHT as nat)
        + "px}\n</style>\n</head>\n<body>\n"@
}

/// Everything of a document that follows the card blocks.
pub open spec fn document_tail() -> Seq<char> {
    "</body>\n</html>\n"@
}

/// The block of markup that shows one card.
pub open spec fn card_block(card: CardView) -> Seq<char> {
    "<div class=\"card\">\n<h1 class=\"name\">"@ + escape_html(card.name)
        + "</h1>\n<p class=\"cardclass\">"@ + escape_html(card.cardclass)
        + "</p>\n<p class=\"action\">"@ + decimal_int(card.action)
        + "</p>\n<p class=\"speed\">"@ + decimal_int(card.speed)
        + "</p>\n<p class=\"initiative\">"@ + decimal_int(card.initiative)
        + "</p>\n<img class=\"art\" alt=\"\" src=\""@ + escape_html(card.image_url)
        + "\">\n<p class=\"desc\">"@ + escape_html(card.desc) + "</p>\n</div>\n"@
}

/// The blocks of a sequence of cards, one after the other.
pub open spec fn card_blocks(cards: Seq<CardView>) -> Seq<char>
    decreases cards.len(),
{
    if cards.len() == 0 {
        Seq::empty()
    } else {
        card_blocks(cards.drop_last()) + card_block(cards.last())
    }
}

/// The document that shows one card on a page of its own size.
pub open spec fn single_card_document(card: CardView) -> Seq<char> {
    document_head(CARD_WIDTH as nat) + card_block(card) + document_tail()
}

/// The document that shows a deck as a grid of cards, a fixed number of them
/// in each row.
pub open spec fn cardsheet_document(cards: Seq<CardView>) -> Seq<char> {
    document_head((CARD_WIDTH * SHEET_COLUMNS) as nat) + card_blocks(cards) + document_tail()
}

/// Appends the head of a document to `out`.
fn push_document_head(out: &mut String, page_width: u32)
    ensures
        final(out)@ == old(out)@ + document_head(page_width as nat),
{
    out.append(
        "<!DOCTYPE html>\n<html>\n<head>\n<meta charset=\"UTF-8\">\n<style>\nbody{margin:0;width:",
    );
    push_decimal_u64(out, page_width as u64);
    out.append("px}\n.card{float:left;box-sizing:border-box;overflow:hidden;width:");
    push_decimal_u64(out, CARD_WIDTH as u64);
    out.append("px;height:");
    push_decimal_u64(out, CARD_HEIGHT as u64);
    out.append("px}\n</style>\n</head>\n<body>\n");
    assert(out@ =~= old(out)@ + document_head(page_width as nat));
}

/// Appends the block of `card` to `out`.
fn push_card_block(out: &mut String, card: &Card)
    ensures
        final(out)@ == old(out)@ + card_block(card@),
{
    out.append("<div class=\"card\">\n<h1 class=\"name\">");
    push_escaped(out, card.name.as_str());
    out.append("</h1>\n<p class=\"cardclass\">");
    push_escaped(out, card.cardclass.as_str());
    out.append("</p>\n<p class=\"action\">");
    push_decimal_i32(out, card.action);
    out.append("</p>\n<p class=\"speed\">");
    push_decimal_i32(out, card.speed);
    out.append("</p>\n<p class=\"initiative\">");
    push_decimal_i32(out, card.initiative);
    out.append("</p>\n<img class=\"art\" alt=\"\" src=\"");
    push_escaped(out, card.image_url.as_str());
    out.append("\">\n<p class=\"desc\">");
    push_escaped(out, card.desc.as_str());
    out.append("</p>\n</div>\n");
    assert(out@ =~= old(out)@ + card_block(card@));
}

/// The template of a single card: the card whose fields fill the document.
pub struct SingleCardTemplate {
    pub card: Card,
}

impl View for SingleCardTemplate {
    type V = CardView;

    open spec fn view(&self) -> CardView {
        self.card@
    }
}

impl SingleCardTemplate {
    /// The template filled with the fields of `card`.
    pub fn new(card: &Card) -> (template: SingleCardTemplate)
        ensures
            template@ == card@,
    {
        SingleCardTemplate { card: card.clone() }
    }

    /// The complete document of the card.
    pub fn render(&self) -> (html: String)
        ensures
            html@ == single_card_document(self@),
    {
        let mut html = String::new();
        push_document_head(&mut html, CARD_WIDTH);
        push_card_block(&mut html, &self.card);
        html.append("</body>\n</html>\n");
        assert(html@ =~= single_card_document(self@));
        html
    }
}

/// The views of a sequence of card templates, in order.
pub open spec fn template_views(templates: Seq<SingleCardTemplate>) -> Seq<CardView> {
    Seq::new(templates.len(), |i: int| templates[i]@)
}

/// The template of a cardsheet: the cards of the deck, in order.
pub struct CardsheetTemplate {
    pub cards: Vec<SingleCardTemplate>,
}

impl View for CardsheetTemplate {
    type V = Seq<CardView>;

    open spec fn view(&self) -> Seq<CardView> {
        template_views(self.cards@)
    }
}

impl CardsheetTemplate {
    /// The complete document of the sheet.
    pub fn render(&self) -> (html: String)
        ensures
            html@ == cardsheet_document(self@),
    {
        let mut html = String::new();
        push_document_head(&mut html, CARD_WIDTH * SHEET_COLUMNS);
        let ghost head = html@;
        let mut i: usize = 0;
        assert(self@.take(0) =~= Seq::<CardView>::empty());
        while i < self.cards.len()
            invariant
                i <= self.cards.len(),
                html@ == head + card_blocks(self@.take(i as int)),
            decreases self.cards.len() - i,
        {
            let ghost next = self@.take(i + 1);
            assert(next.drop_last() =~= self@.take(i as int));
            assert(next.last() == self.cards[i as int]@);
            push_card_block(&mut html, &self.cards[i].card);
            i += 1;
            assert(html@ =~= head + card_blocks(next));
        }
        assert(self@.take(i as int) =~= self@);
        html.append("</body>\n</html>\n");
        assert(html@ =~= cardsheet_document(self@));
        html
    }
}

/// How often the delimiter `c` occurs in the markup of one card block.
pub open spec fn card_block_delimiters(c: char) -> nat {
    occurrences("<div class=\"card\">\n<h1 class=\"name\">"@, c) + occurrences(
        "</h1>\n<p class=\"cardclass\">"@,
        c,
    ) + occurrences("</p>\n<p class=\"action\">"@, c) + occurrences(
        "</p>\n<p class=\"speed\">"@,
        c,
    ) + occurrences("</p>\n<p class=\"initiative\">"@, c) + occurrences(
        "</p>\n<img class=\"art\" alt=\"\" src=\""@,
        c,
    ) + occurrences("\">\n<p class=\"desc\">"@, c) + occurrences("</p>\n</div>\n"@, c)
}

/// A delimiter occurs in a text that ends with an escaped field as often as
/// in what precedes the field.
proof fn lemma_escaped_field_adds_none(before: Seq<char>, field: Seq<char>, c: char)
    requires
        is_delimiter(c),
    ensures
        occurrences(before + escape_html(field), c) == occurrences(before, c),
{
    lemma_escaped_has_no_delimiter(field);
    lemma_occurrences_absent(escape_html(field), c);
    lemma_occurrences_concat(before, escape_html(field), c);
}

/// A delimiter occurs in a text that ends with a number as often as in what
/// precedes the number.
proof fn lemma_number_adds_none(before: Seq<char>, number: int, c: char)
    requires
        is_delimiter(c),
    ensures
        occurrences(before + decimal_int(number), c) == occurrences(before, c),
{
    lemma_decimal_int_chars(number);
    lemma_occurrences_absent(decimal_int(number), c);
    lemma_occurrences_concat(before, decimal_int(number), c);
}

/// The delimiters of a card block are those of its markup: the fields of the
/// card add none.
pub proof fn lemma_card_block_delimiters(card: CardView, c: char)
    requires
        is_delimiter(c),
    ensures
        occurrences(card_block(card), c) == card_block_delimiters(c),
{
    let s0 = "<div class=\"card\">\n<h1 class=\"name\">"@;
    let s1 = s0 + escape_html(card.name);
    let s2 = s1 + "</h1>\n<p class=\"cardclass\">"@;
    let s3 = s2 + escape_html(card.cardclass);
    let s4 = s3 + "</p>\n<p class=\"action\">"@;
    let s5 = s4 + decimal_int(card.action);
    let s6 = s5 + "</p>\n<p class=\"speed\">"@;
    let s7 = s6 + decimal_int(card.speed);
    let s8 = s7 + "</p>\n<p class=\"initiative\">"@;
    let s9 = s8 + decimal_int(card.initiative);
    let s10 = s9 + "</p>\n<img class=\"art\" alt=\"\" src=\""@;
    let s11 = s10 + escape_html(card.image_url);
    let s12 = s11 + "\">\n<p class=\"desc\">"@;
    let s13 = s12 + escape_html(card.desc);
    lemma_escaped_field_adds_none(s0, card.name, c);
    lemma_occurrences_concat(s1, "</h1>\n<p class=\"cardclass\">"@, c);
    lemma_escaped_field_adds_none(s2, card.cardclass, c);
    lemma_occurrences_concat(s3, "</p>\n<p class=\"action\">"@, c);
    lemma_number_adds_none(s4, card.action, c);
    lemma_occurrences_concat(s5, "</p>\n<p class=\"speed\">"@, c);
    lemma_number_adds_none(s6, card.speed, c);
    lemma_occurrences_concat(s7, "</p>\n<p class=\"initiative\">"@, c);
    lemma_number_adds_none(s8, card.initiative, c);
    lemma_occurrences_concat(s9, "</p>\n<img class=\"art\" alt=\"\" src=\""@, c);
    lemma_escaped_field_adds_none(s10, card.image_url, c);
    lemma_occurrences_concat(s11, "\">\n<p class=\"desc\">"@, c);
    lemma_escaped_field_adds_none(s12, card.desc, c);
    lemma_occurrences_concat(s13, "</p>\n</div>\n"@, c);
}

/// The delimiters of a row of card blocks are those of one block's markup,
/// once for each card.
pub proof fn lemma_card_blocks_delimiters(cards: Seq<CardView>, c: char)
    requires
        is_delimiter(c),
    ensures
        occurrences(card_blocks(cards), c) == cards.len() * card_block_delimiters(c),
    decreases cards.len(),
{
    if cards.len() > 0 {
        lemma_card_blocks_delimiters(cards.drop_last(), c);
        lemma_card_block_delimiters(cards.last(), c);
        lemma_occurrences_concat(card_blocks(cards.drop_last()), card_block(cards.last()), c);
        assert(cards.len() * card_block_delimiters(c) == (cards.len() - 1) * card_block_delimiters(
            c,
        ) + card_block_delimiters(c)) by (nonlinear_arith);
    }
}

/// What a card holds does not alter the structure of its document: whatever
/// the fields of two cards are, each of `<`, `>`, `"` and `'` occurs in
/// their documents equally often.
pub proof fn lemma_single_card_structure(a: CardView, b: CardView, c: char)
    requires
        is_delimiter(c),
    ensures
        occurrences(single_card_document(a), c) == occurrences(single_card_document(b), c),
{
    let head = document_head(CARD_WIDTH as nat);
    lemma_card_block_delimiters(a, c);
    lemma_card_block_delimiters(b, c);
    lemma_occurrences_concat(head, card_block(a), c);
    lemma_occurrences_concat(head, card_block(b), c);
    lemma_occurrences_concat(head + card_block(a), document_tail(), c);
    lemma_occurrences_concat(head + card_block(b), document_tail(), c);
}

/// What the cards of a deck hold does not alter the structure of its sheet:
/// for two decks of as many cards, each of `<`, `>`, `"` and `'` occurs in
/// their documents equally often.
pub proof fn lemma_cardsheet_structure(a: Seq<CardView>, b: Seq<CardView>, c: char)
    requires
        is_delimiter(c),
        a.len() == b.len(),
    ensures
        occurrences(cardsheet_document(a), c) == occurrences(cardsheet_document(b), c),
{
    let head = document_head((CARD_WIDTH * SHEET_COLUMNS) as nat);
    lemma_card_blocks_delimiters(a, c);
    lemma_card_blocks_delimiters(b, c);
    lemma_occurrences_concat(head, card_blocks(a), c);
    lemma_occurrences_concat(head, card_blocks(b), c);
    lemma_occurrences_concat(head + card_blocks(a), document_tail(), c);
    lemma_occurrences_concat(head + card_blocks(b), document_tail(), c);
}

/// The document of a card holds the escaped form of its name and of its
/// description, each as one piece.
pub proof fn lemma_document_holds_escaped_text(card: CardView)
    ensures
        exists|at: int|
            0 <= at && at + escape_html(card.name).len() <= single_card_document(card).len()
                && #[trigger] single_card_document(card).subrange(
                at,
                at + escape_html(card.name).len(),
            ) == escape_html(card.name),
        exists|at: int|
            0 <= at && at + escape_html(card.desc).len() <= single_card_document(card).len()
                && #[trigger] single_card_document(card).subrange(
                at,
                at + escape_html(card.desc).len(),
            ) == escape_html(card.desc),
{
    let head = document_head(CARD_WIDTH as nat);
    let s0 = head + "<div class=\"card\">\n<h1 class=\"name\">"@;
    let document = single_card_document(card);
    let name = escape_html(card.name);
    let start = s0.len() as int;
    assert(document.subrange(start, start + name.len()) =~= name);
    let desc = escape_html(card.desc);
    let end = document.len() - document_tail().len() - "</p>\n</div>\n"@.len();
    assert(document.subrange(end - desc.len(), end) =~= desc);
    assert(document.subrange(end - desc.len(), end - desc.len() + desc.len()) == desc);
}

} // verus!
