use cardego_server::errors::RenderError;
use cardego_server::image::layout::{
    sheet_dimensions, sheet_rows, single_card_dimensions, Dimensions, MAX_SHEET_CARDS,
};

#[test]
fn single_card_is_1050_by_750() {
    assert_eq!(single_card_dimensions(), Dimensions { width: 1050, height: 750 });
}

#[test]
fn sheet_rows_round_up() {
    assert_eq!(sheet_rows(0), 0);
    assert_eq!(sheet_rows(1), 1);
    assert_eq!(sheet_rows(5), 1);
    assert_eq!(sheet_rows(6), 1);
    assert_eq!(sheet_rows(7), 2);
    assert_eq!(sheet_rows(12), 2);
    assert_eq!(sheet_rows(13), 3);
}

#[test]
fn sheet_of_thirteen_has_three_rows_of_six() {
    assert_eq!(sheet_dimensions(13), Ok(Dimensions { width: 1050 * 6, height: 750 * 3 }));
}

#[test]
fn sheet_of_a_full_row_is_one_row_high() {
    assert_eq!(sheet_dimensions(6), Ok(Dimensions { width: 6300, height: 750 }));
    assert_eq!(sheet_dimensions(12), Ok(Dimensions { width: 6300, height: 1500 }));
    assert_eq!(sheet_dimensions(18), Ok(Dimensions { width: 6300, height: 2250 }));
}

#[test]
fn sheet_height_limit() {
    assert_eq!(
        sheet_dimensions(MAX_SHEET_CARDS),
        Ok(Dimensions { width: 6300, height: 4294967250 })
    );
    assert_eq!(sheet_dimensions(MAX_SHEET_CARDS + 1), Err(RenderError::SheetTooLarge));
    assert_eq!(sheet_dimensions(usize::MAX), Err(RenderError::SheetTooLarge));
}

#[test]
fn sheet_dimensions_by_card_count() {
    let cases: Vec<(usize, u32)> = vec![(1, 1), (5, 1), (6, 1), (7, 2), (12, 2), (13, 3)];
    for (count, rows) in cases {
        assert_eq!(sheet_rows(count), rows as usize);
        assert_eq!(
            sheet_dimensions(count),
            Ok(Dimensions { width: 6 * 1050, height: rows * 750 })
        );
    }
}

#[test]
fn empty_sheet_has_no_rows() {
    assert_eq!(sheet_dimensions(0), Ok(Dimensions { width: 6300, height: 0 }));
}

#[test]
fn rows_are_the_least_that_hold_all_cards() {
    let mut count: usize = 0;
    while count < 200 {
        let rows = sheet_rows(count);
        assert!(rows * 6 >= count);
        assert!(rows == 0 || (rows - 1) * 6 < count);
        count += 1;
    }
}
