use cardego_server::errors::RenderError;
use cardego_server::image::converter::{judge_converter_exit, ConverterCommand};
use cardego_server::image::layout::MAX_SHEET_CARDS;
use cardego_server::image::paths::{
    card_art_path, card_html_path, card_image_path, deck_html_path, deck_image_path, staging_path,
};
use cardego_server::image::{
    generate_card_image, generate_deck_cardsheet_image, generate_image_using_wkhtmltoimage,
    RenderJob, RenderRequest,
};
use cardego_server::models::Card;

fn fireball() -> Card {
    Card {
        id: 1,
        cardclass: String::from("spell"),
        action: 1,
        speed: 2,
        initiative: 0,
        name: String::from("Fireball"),
        desc: String::from("Deals 3 damage"),
        image_url: String::from("file:///assets/fireball.png"),
    }
}

fn numbered(id: i32) -> Card {
    Card {
        id,
        cardclass: String::from("unit"),
        action: id,
        speed: 0,
        initiative: 0,
        name: format!("Card {}", id),
        desc: String::new(),
        image_url: String::new(),
    }
}

fn deck(count: i32) -> Vec<Card> {
    (0..count).map(numbered).collect()
}

#[test]
fn paths_follow_the_file_layout() {
    assert_eq!(card_html_path(7), "runtime/data/cards/images/templates/7.html");
    assert_eq!(card_image_path(7), "runtime/data/cards/images/7.png");
    assert_eq!(card_art_path(7), "runtime/data/cards/images/7-art.png");
    assert_eq!(deck_html_path("starter"), "runtime/data/decks/images/templates/starter.html");
    assert_eq!(deck_image_path("starter"), "runtime/data/decks/images/starter.png");
    assert_eq!(staging_path("a/b.html"), "a/b.html.tmp");
}

#[test]
fn paths_of_a_negative_id() {
    assert_eq!(card_image_path(-12), "runtime/data/cards/images/-12.png");
}

#[test]
fn fireball_is_rendered_at_card_size_to_its_own_files() {
    let job = generate_card_image(&fireball());
    assert_eq!(job.width, 1050);
    assert_eq!(job.height, 750);
    assert_eq!(job.html_path, "runtime/data/cards/images/templates/1.html");
    assert_eq!(job.html_staging_path, "runtime/data/cards/images/templates/1.html.tmp");
    assert_eq!(job.image_path, "runtime/data/cards/images/1.png");
    assert!(job.html.contains("Fireball"));
    assert!(job.html.contains("Deals 3 damage"));
}

#[test]
fn rendering_a_card_twice_is_the_same_job() {
    let first = generate_card_image(&fireball());
    let second = generate_card_image(&fireball());
    assert_eq!(first, second);
}

#[test]
fn deck_of_thirteen_is_three_rows_high() {
    let job = generate_deck_cardsheet_image("starter", deck(13)).unwrap();
    assert_eq!(job.width, 1050 * 6);
    assert_eq!(job.height, 750 * 3);
    assert_ne!(job.height, 750);
    assert_eq!(job.html_path, "runtime/data/decks/images/templates/starter.html");
    assert_eq!(job.image_path, "runtime/data/decks/images/starter.png");
    assert_eq!(job.html.matches("<div class=\"card\">").count(), 13);
}

#[test]
fn deck_heights_by_card_count() {
    let cases: Vec<(i32, u32)> = vec![(0, 0), (1, 1), (5, 1), (6, 1), (7, 2), (12, 2), (13, 3)];
    for (count, rows) in cases {
        let job = generate_deck_cardsheet_image("d", deck(count)).unwrap();
        assert_eq!(job.width, 6300);
        assert_eq!(job.height, 750 * rows);
    }
}

#[test]
fn render_request_dispatches_on_its_kind() {
    let single = RenderRequest::Single(fireball()).plan().unwrap();
    assert_eq!(single, generate_card_image(&fireball()));
    let sheet = RenderRequest::Sheet(String::from("starter"), deck(7)).plan().unwrap();
    assert_eq!(sheet, generate_deck_cardsheet_image("starter", deck(7)).unwrap());
}

#[test]
fn sheet_limit_is_far_above_any_deck() {
    assert_eq!(MAX_SHEET_CARDS, 34359738);
}

#[test]
fn converter_command_lists_its_arguments_in_order() {
    let command = generate_image_using_wkhtmltoimage(750, 1050, "in.html", "out.png");
    assert_eq!(command.program, "./wkhtmltoimage");
    let expected: Vec<String> = vec![
        String::from("--height"),
        String::from("750"),
        String::from("--width"),
        String::from("1050"),
        String::from("--enable-local-file-access"),
        String::from("in.html"),
        String::from("out.png"),
    ];
    assert_eq!(command.arguments, expected);
    assert_eq!(command, ConverterCommand::new(750, 1050, "in.html", "out.png"));
}

#[test]
fn job_command_passes_height_width_and_both_paths() {
    let job = generate_deck_cardsheet_image("starter", deck(13)).unwrap();
    let command = job.command();
    assert_eq!(command.arguments[1], "2250");
    assert_eq!(command.arguments[3], "6300");
    assert_eq!(command.arguments[5], "runtime/data/decks/images/templates/starter.html");
    assert_eq!(command.arguments[6], "runtime/data/decks/images/starter.png");
}

#[test]
fn successful_exit_is_a_success_whatever_was_written() {
    assert_eq!(judge_converter_exit(true, Vec::new()), Ok(()));
    assert_eq!(judge_converter_exit(true, b"warning: slow".to_vec()), Ok(()));
    assert_eq!(judge_converter_exit(true, vec![0xff, 0xfe]), Ok(()));
}

#[test]
fn failed_exit_carries_the_error_stream() {
    assert_eq!(
        judge_converter_exit(false, b"Error: could not load input".to_vec()),
        Err(RenderError::ProcessFailed(String::from("Error: could not load input")))
    );
    assert_eq!(
        judge_converter_exit(false, Vec::new()),
        Err(RenderError::ProcessFailed(String::new()))
    );
    assert_eq!(
        judge_converter_exit(false, "\u{e9}chec".as_bytes().to_vec()),
        Err(RenderError::ProcessFailed(String::from("\u{e9}chec")))
    );
}

#[test]
fn failed_exit_with_an_unreadable_error_stream() {
    assert_eq!(judge_converter_exit(false, vec![0x66, 0xff]), Err(RenderError::DiagnosticsNotUtf8));
}

#[test]
fn concluded_job_gives_its_image_path_on_success_only() {
    let job: RenderJob = generate_card_image(&fireball());
    assert_eq!(
        job.conclude(true, Vec::new()),
        Ok(String::from("runtime/data/cards/images/1.png"))
    );
    let job = generate_card_image(&fireball());
    assert_eq!(
        job.conclude(false, b"boom".to_vec()),
        Err(RenderError::ProcessFailed(String::from("boom")))
    );
}

#[test]
fn cards_of_different_ids_have_different_files() {
    let ids: Vec<i32> = vec![i32::MIN, -11, -1, 0, 1, 10, 11, 100, 101, i32::MAX];
    for a in &ids {
        for b in &ids {
            assert_eq!(card_image_path(*a) == card_image_path(*b), a == b);
            assert_eq!(card_html_path(*a) == card_html_path(*b), a == b);
            assert_eq!(card_art_path(*a) == card_art_path(*b), a == b);
        }
    }
}
