//! Pixel dimensions of rendered cards and cardsheets.

use vstd::prelude::*;
use crate::errors::RenderError;

verus! {

/// Width of one rendered card, in pixels.
pub const CARD_WIDTH: u32 = 1050;

/// Height of one rendered card, in pixels.
pub const CARD_HEIGHT: u32 = 750;

/// Number of cards in one row of a cardsheet.
pub const SHEET_COLUMNS: u32 = 6;

/// Width and height of a canvas, in pixels.
#[derive(Clone, Copy, Debug, PartialEq, Eq, Structural)]
pub struct Dimensions {
    pub width: u32,
    pub height: u32,
}

/// Rows that a sheet of `card_count` cards occupies: the count divided by the
/// column count, rounded up. An empty sheet has no rows.
///
/// The remainder of that division is not the row count, and must not be
/// taken for it: a deck of 6, 12 or 18 cards fills 1, 2 or 3 rows, while the
/// remainder is zero, and a deck of 13 cards needs 3 rows, while the remainder
/// is one.
pub open spec fn sheet_rows_spec(card_count: nat) -> nat {
    (card_count + SHEET_COLUMNS - 1) as nat / (SHEET_COLUMNS as nat)
}

/// Canvas width of every sheet.
pub open spec fn sheet_width_spec() -> nat {
    (CARD_WIDTH * SHEET_COLUMNS) as nat
}

/// Canvas height of a sheet of `card_count` cards.
pub open spec fn sheet_height_spec(card_count: nat) -> nat {
    CARD_HEIGHT as nat * sheet_rows_spec(card_count)
}

/// The largest card count whose sheet height still fits in a `u32`.
pub const MAX_SHEET_CARDS: usize = 34359738;

/// The row count is the count divided by the column count, rounded up: the
/// least number of rows that hold all the cards.
pub proof fn lemma_sheet_rows_is_ceiling(card_count: nat)
    ensures
        sheet_rows_spec(card_count) * SHEET_COLUMNS >= card_count,
        sheet_rows_spec(card_count) * SHEET_COLUMNS < card_count + SHEET_COLUMNS,
{
}

/// A deck that fills its rows has as many rows as it has full rows of cards.
pub proof fn lemma_full_rows(rows: nat)
    ensures
        sheet_rows_spec(rows * (SHEET_COLUMNS as nat)) == rows,
{
}

/// No smaller number of rows holds all the cards.
pub proof fn lemma_sheet_rows_is_least(card_count: nat, rows: nat)
    requires
        rows * SHEET_COLUMNS >= card_count,
    ensures
        rows >= sheet_rows_spec(card_count),
{
}

/// A sheet's height fits in a `u32` exactly up to `MAX_SHEET_CARDS` cards.
pub proof fn lemma_sheet_height_bound(card_count: nat)
    ensures
        sheet_height_spec(card_count) <= u32::MAX <==> card_count <= MAX_SHEET_CARDS,
{
}

/// The canvas of a single card.
pub fn single_card_dimensions() -> (d: Dimensions)
    ensures
        d.width == CARD_WIDTH,
        d.height == CARD_HEIGHT,
{
    Dimensions { width: CARD_WIDTH, height: CARD_HEIGHT }
}

/// The number of rows of a sheet of `card_count` cards.
pub fn sheet_rows(card_count: usize) -> (rows: usize)
    ensures
        rows == sheet_rows_spec(card_count as nat),
{
    let columns: usize = SHEET_COLUMNS as usize;
    if card_count % columns == 0 {
        card_count / columns
    } else {
        card_count / columns + 1
    }
}

/// The canvas of a sheet of `card_count` cards: as wide as one full row, as
/// high as its rows. Fails, with `SheetTooLarge`, exactly when the height
/// does not fit in a `u32`, which is for more than `MAX_SHEET_CARDS` cards.
pub fn sheet_dimensions(card_count: usize) -> (d: Result<Dimensions, RenderError>)
    ensures
        match d {
            Ok(dimensions) => card_count <= MAX_SHEET_CARDS && dimensions.width
                == sheet_width_spec() && dimensions.height == sheet_height_spec(
                card_count as nat,
            ),
            Err(error) => card_count > MAX_SHEET_CARDS && error == RenderError::SheetTooLarge,
        },
{
    proof {
        lemma_sheet_height_bound(card_count as nat);
    }
    if card_count > MAX_SHEET_CARDS {
        return Err(RenderError::SheetTooLarge);
    }
    let rows: u32 = sheet_rows(card_count) as u32;
    Ok(Dimensions { width: CARD_WIDTH * SHEET_COLUMNS, height: CARD_HEIGHT * rows })
}

} // verus!
