//! The image pipeline: what to render, where, at which size, and how the
//! converter and the artwork retrieval are driven.
//!
//! The functions here decide and compute. Writing the document, running the
//! converter and moving bytes is left to the caller, who hands back how it
//! went.
//!
//! Nothing is cached: every job renders anew and replaces the files at its
//! paths. The paths depend on the card's id or on the deck's name alone, so
//! two renderings of the same card or deck that run at once write the same
//! files, and the later writer wins. A caller that cannot live with that
//! holds a lock for each id or name while it carries out a job. A job that
//! failed leaves its document behind; nothing removes it. A converter that
//! was started runs to its end.

pub mod converter;
pub mod escape;
pub mod layout;
pub mod paths;
pub mod retrieval;
pub mod templates;

use vstd::prelude::*;
use crate::errors::{RenderError, RetrievalError};
use crate::image::converter::{
    converter_command, judge_converter_exit, converter_result, render_error_view,
    ConverterCommand, RenderErrorView,
};
use crate::image::layout::{
    sheet_dimensions, sheet_height_spec, sheet_width_spec, single_card_dimensions, CARD_HEIGHT,
    CARD_WIDTH, MAX_SHEET_CARDS,
};
use crate::image::paths::{
    card_html_path, card_html_path_spec, card_image_path, card_image_path_spec, deck_html_path,
    deck_html_path_spec, deck_image_path, deck_image_path_spec, staging_path, staging_path_spec,
};
use crate::image::retrieval::{
    parse_url, plan_retrieval, planned_view, retrieval_plan, url_components, RetrievalPlan,
};
use crate::image::templates::{
    cardsheet_document, single_card_document, CardsheetTemplate, SingleCardTemplate,
};
use crate::models::{card_views, Card, CardView};

verus! {

/// Everything that rendering one image takes: the document and the file it
/// is written to, the size of the canvas, and the file of the image.
#[derive(Debug, PartialEq, Eq)]
pub struct RenderJob {
    /// The document to render.
    pub html: String,
    /// Where the converter reads the document.
    pub html_path: String,
    /// Where the document is written in full before it is moved to
    /// `html_path`.
    pub html_staging_path: String,
    /// Width of the canvas, in pixels.
    pub width: u32,
    /// Height of the canvas, in pixels.
    pub height: u32,
    /// Where the converter writes the image.
    pub image_path: String,
}

/// A render job, as mathematical values.
pub ghost struct RenderJobView {
    pub html: Seq<char>,
    pub html_path: Seq<char>,
    pub html_staging_path: Seq<char>,
    pub width: nat,
    pub height: nat,
    pub image_path: Seq<char>,
}

impl View for RenderJob {
    type V = RenderJobView;

    open spec fn view(&self) -> RenderJobView {
        RenderJobView {
            html: self.html@,
            html_path: self.html_path@,
            html_staging_path: self.html_staging_path@,
            width: self.width as nat,
            height: self.height as nat,
            image_path: self.image_path@,
        }
    }
}

/// The job that renders one card: its document, on a canvas of the size of
/// one card, at the paths that its id gives.
pub open spec fn card_render_job(card: CardView) -> RenderJobView {
    RenderJobView {
        html: single_card_document(card),
        html_path: card_html_path_spec(card.id),
        html_staging_path: staging_path_spec(card_html_path_spec(card.id)),
        width: CARD_WIDTH as nat,
        height: CARD_HEIGHT as nat,
        image_path: card_image_path_spec(card.id),
    }
}

/// The job that renders a deck as a sheet: the document of all its cards, on
/// a canvas of one full row's width and of the height of its rows, at the
/// paths that the deck's name gives.
pub open spec fn sheet_render_job(deck_name: Seq<char>, cards: Seq<CardView>) -> RenderJobView {
    RenderJobView {
        html: cardsheet_document(cards),
        html_path: deck_html_path_spec(deck_name),
        html_staging_path: staging_path_spec(deck_html_path_spec(deck_name)),
        width: sheet_width_spec(),
        height: sheet_height_spec(cards.len()),
        image_path: deck_image_path_spec(deck_name),
    }
}

/// The document of one card, as a string.
pub fn generate_card_image_html_string(card_info: &Card) -> (html: String)
    ensures
        html@ == single_card_document(card_info@),
{
    SingleCardTemplate::new(card_info).render()
}

/// Plans the rendering of one card.
pub fn generate_card_image(card_info: &Card) -> (job: RenderJob)
    ensures
        job@ == card_render_job(card_info@),
{
    let dimensions = single_card_dimensions();
    let html_path = card_html_path(card_info.id);
    let html_staging_path = staging_path(html_path.as_str());
    RenderJob {
        html: generate_card_image_html_string(card_info),
        html_path,
        html_staging_path,
        width: dimensions.width,
        height: dimensions.height,
        image_path: card_image_path(card_info.id),
    }
}

/// Plans the rendering of the deck `deck_name`, whose cards are `cards`, as
/// a sheet. Fails, with `SheetTooLarge`, exactly when the deck has more than
/// `MAX_SHEET_CARDS` cards.
pub fn generate_deck_cardsheet_image(deck_name: &str, cards: Vec<Card>) -> (planned: Result<
    RenderJob,
    RenderError,
>)
    ensures
        match planned {
            Ok(job) => cards.len() <= MAX_SHEET_CARDS && job@ == sheet_render_job(
                deck_name@,
                card_views(cards@),
            ),
            Err(error) => cards.len() > MAX_SHEET_CARDS && error == RenderError::SheetTooLarge,
        },
{
    let dimensions = match sheet_dimensions(cards.len()) {
        Ok(dimensions) => dimensions,
        Err(error) => {
            return Err(error);
        },
    };
    let ghost views = card_views(cards@);
    let mut templates: Vec<SingleCardTemplate> = Vec::new();
    let mut i: usize = 0;
    while i < cards.len()
        invariant
            i <= cards.len(),
            templates.len() == i,
            forall|k: int| 0 <= k < i ==> (#[trigger] templates[k])@ == cards[k]@,
        decreases cards.len() - i,
    {
        templates.push(SingleCardTemplate::new(&cards[i]));
        i += 1;
    }
    let sheet = CardsheetTemplate { cards: templates };
    assert(sheet@ =~= views);
    let html_path = deck_html_path(deck_name);
    let html_staging_path = staging_path(html_path.as_str());
    Ok(
        RenderJob {
            html: sheet.render(),
            html_path,
            html_staging_path,
            width: dimensions.width,
            height: dimensions.height,
            image_path: deck_image_path(deck_name),
        },
    )
}

/// The invocation of the converter that renders the document at
/// `substituted_html_path` to an image at `output_path`, on a canvas that is
/// `height` pixels high and `width` pixels wide.
pub fn generate_image_using_wkhtmltoimage(
    height: u32,
    width: u32,
    substituted_html_path: &str,
    output_path: &str,
) -> (command: ConverterCommand)
    ensures
        command@ == converter_command(
            height as nat,
            width as nat,
            substituted_html_path@,
            output_path@,
        ),
{
    ConverterCommand::new(height, width, substituted_html_path, output_path)
}

/// Plans the retrieval of the artwork at `url` for the card `card_id`: fails
/// where the address does not parse as a URL, reads a local file where its
/// scheme is `file`, and fetches it as a remote resource otherwise.
pub fn retrieve_image(url: &str, card_id: i32) -> (planned: Result<RetrievalPlan, RetrievalError>)
    ensures
        planned_view(planned) == retrieval_plan(url@, url_components(url@), card_id as int),
{
    plan_retrieval(url, parse_url(url), card_id)
}

impl RenderJob {
    /// The invocation of the converter that carries out this job.
    pub fn command(&self) -> (command: ConverterCommand)
        ensures
            command@ == converter_command(self@.height, self@.width, self@.html_path, self@.image_path),
    {
        generate_image_using_wkhtmltoimage(
            self.height,
            self.width,
            self.html_path.as_str(),
            self.image_path.as_str(),
        )
    }

    /// Concludes this job once the converter has run: the path of the
    /// image where the converter exited successfully, and else the failure
    /// that its exit means. Whether the image exists is not looked at.
    pub fn conclude(self, succeeded: bool, stderr: Vec<u8>) -> (result: Result<String, RenderError>)
        ensures
            match result {
                Ok(path) => succeeded && path == self.image_path,
                Err(error) => converter_result(succeeded, stderr@) == Err::<(), RenderErrorView>(
                    render_error_view(error),
                ),
            },
    {
        match judge_converter_exit(succeeded, stderr) {
            Ok(_) => Ok(self.image_path),
            Err(error) => Err(error),
        }
    }
}

/// What is to be rendered: one card, or a deck as a sheet.
#[derive(Debug, PartialEq, Eq)]
pub enum RenderRequest {
    /// One card.
    Single(Card),
    /// The deck of the given name, with its cards in order.
    Sheet(String, Vec<Card>),
}

impl RenderRequest {
    /// The job that a request comes to, where it can be rendered.
    pub open spec fn job(self) -> Option<RenderJobView> {
        match self {
            RenderRequest::Single(card) => Some(card_render_job(card@)),
            RenderRequest::Sheet(deck_name, cards) => if cards.len() <= MAX_SHEET_CARDS {
                Some(sheet_render_job(deck_name@, card_views(cards@)))
            } else {
                None
            },
        }
    }

    /// Plans the rendering of this request. Fails, with `SheetTooLarge`,
    /// exactly for a deck of more than `MAX_SHEET_CARDS` cards.
    pub fn plan(self) -> (planned: Result<RenderJob, RenderError>)
        ensures
            match planned {
                Ok(job) => self.job() == Some(job@),
                Err(error) => self.job() is None && error == RenderError::SheetTooLarge,
            },
    {
        match self {
            RenderRequest::Single(card) => Ok(generate_card_image(&card)),
            RenderRequest::Sheet(deck_name, cards) => generate_deck_cardsheet_image(
                deck_name.as_str(),
                cards,
            ),
        }
    }
}

/// Rendering is a function of the card: two cards that hold the same give
/// the same job, document and paths included.
pub proof fn lemma_same_card_same_job(a: Card, b: Card)
    requires
        a@ == b@,
    ensures
        card_render_job(a@) == card_render_job(b@),
{
}

/// The files of a card's rendering depend on its id alone, and its canvas on
/// nothing: two cards of one id are rendered to the same files at the same
/// size, whatever else they hold.
pub proof fn lemma_card_files_depend_on_id(a: CardView, b: CardView)
    requires
        a.id == b.id,
    ensures
        card_render_job(a).html_path == card_render_job(b).html_path,
        card_render_job(a).html_staging_path == card_render_job(b).html_staging_path,
        card_render_job(a).image_path == card_render_job(b).image_path,
        card_render_job(a).width == CARD_WIDTH == card_render_job(b).width,
        card_render_job(a).height == CARD_HEIGHT == card_render_job(b).height,
{
}

/// The files of a deck's sheet depend on its name alone, and its canvas on
/// the number of its cards alone.
pub proof fn lemma_sheet_files_depend_on_name(
    deck_name: Seq<char>,
    a: Seq<CardView>,
    b: Seq<CardView>,
)
    ensures
        sheet_render_job(deck_name, a).html_path == sheet_render_job(deck_name, b).html_path,
        sheet_render_job(deck_name, a).image_path == sheet_render_job(deck_name, b).image_path,
        sheet_render_job(deck_name, a).width == sheet_render_job(deck_name, b).width,
        a.len() == b.len() ==> sheet_render_job(deck_name, a).height == sheet_render_job(
            deck_name,
            b,
        ).height,
{
}

} // verus!
