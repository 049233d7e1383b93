//! What the handlers of the service decide: which failure a request ends in,
//! and which answer it gets. Reading the request, asking the database and
//! touching files is the caller's part; each function here takes what that
//! yielded and gives the answer, or the next thing to do.

pub mod ids;

use vstd::prelude::*;
use vstd::string::{StrSliceExecFns, StringExecFns};
use vstd::utf8::encode_utf8;
use crate::errors::{
    AppError, ClientError, RenderError, ServerError, STATUS_CREATED, STATUS_OK,
};
use crate::image::layout::MAX_SHEET_CARDS;
use crate::image::templates::single_card_document;
use crate::image::{
    card_render_job, generate_card_image, generate_card_image_html_string,
    generate_deck_cardsheet_image, sheet_render_job, RenderJob,
};
use crate::models::{card_views, Card, CardAttribute, FullCardData};
use crate::route::ids::{deck_ids, id_values, parse_deck_ids};

verus! {

/// What asking the database for something yielded.
#[derive(Debug, PartialEq, Eq)]
pub enum Lookup<T> {
    /// The database could not be reached or locked.
    Unavailable,
    /// The database holds no such thing.
    Missing,
    /// The database holds it.
    Found(T),
}

/// What a lookup comes to: the thing found, a server failure where the
/// database was unavailable, a client failure where the thing is missing.
pub open spec fn lookup_result<T>(lookup: Lookup<T>) -> Result<T, AppError> {
    match lookup {
        Lookup::Unavailable => Err(AppError::Server(ServerError::DatabaseConnectionError)),
        Lookup::Missing => Err(AppError::Client(ClientError::ResourceNotFound)),
        Lookup::Found(found) => Ok(found),
    }
}

impl<T> Lookup<T> {
    /// The thing found, or the failure that the lookup ends the request
    /// with.
    pub fn require(self) -> (result: Result<T, AppError>)
        ensures
            result == lookup_result(self),
    {
        match self {
            Lookup::Unavailable => Err(AppError::Server(ServerError::DatabaseConnectionError)),
            Lookup::Missing => Err(AppError::Client(ClientError::ResourceNotFound)),
            Lookup::Found(found) => Ok(found),
        }
    }
}

/// What writing to the database yielded.
#[derive(Debug, PartialEq, Eq)]
pub enum Store<T> {
    /// The database could not be reached or locked.
    Unavailable,
    /// The database refused the write; the text says why.
    Refused(String),
    /// The database holds what was written.
    Done(T),
}

/// What a write comes to: the thing stored, or a server failure.
pub open spec fn store_result<T>(store: Store<T>) -> Result<T, AppError> {
    match store {
        Store::Unavailable => Err(AppError::Server(ServerError::DatabaseConnectionError)),
        Store::Refused(reason) => Err(AppError::Server(ServerError::DatabaseError(reason))),
        Store::Done(stored) => Ok(stored),
    }
}

impl<T> Store<T> {
    /// The thing stored, or the failure that the write ends the request
    /// with.
    pub fn require(self) -> (result: Result<T, AppError>)
        ensures
            result == store_result(self),
    {
        match self {
            Store::Unavailable => Err(AppError::Server(ServerError::DatabaseConnectionError)),
            Store::Refused(reason) => Err(AppError::Server(ServerError::DatabaseError(reason))),
            Store::Done(stored) => Ok(stored),
        }
    }
}

/// What reading a file yielded: its bytes, or the reason why it could not be
/// read.
pub open spec fn file_result(read: Result<Vec<u8>, String>) -> Result<Vec<u8>, AppError> {
    match read {
        Ok(bytes) => Ok(bytes),
        Err(reason) => Err(AppError::Server(ServerError::FileIOError(reason))),
    }
}

/// An answer with a body of bytes.
#[derive(Debug, PartialEq, Eq)]
pub struct Reply {
    /// The HTTP status.
    pub status: u16,
    /// The media type of the body, where the answer names one.
    pub content_type: Option<String>,
    /// The body.
    pub body: Vec<u8>,
}

/// An answer, as mathematical values.
pub ghost struct ReplyView {
    pub status: u16,
    pub content_type: Option<Seq<char>>,
    pub body: Seq<u8>,
}

impl View for Reply {
    type V = ReplyView;

    open spec fn view(&self) -> ReplyView {
        ReplyView {
            status: self.status,
            content_type: match self.content_type {
                Some(name) => Some(name@),
                None => None,
            },
            body: self.body@,
        }
    }
}

/// The successful answer that carries `body` as a resource of the media type
/// `content_type`.
pub open spec fn ok_reply(content_type: Seq<char>, body: Seq<u8>) -> ReplyView {
    ReplyView { status: STATUS_OK, content_type: Some(content_type), body }
}

impl Reply {
    /// The successful answer that carries `body` as a resource of the media
    /// type `content_type`.
    pub fn ok(content_type: &str, body: Vec<u8>) -> (reply: Reply)
        ensures
            reply@ == ok_reply(content_type@, body@),
    {
        Reply { status: STATUS_OK, content_type: Some(String::from_str(content_type)), body }
    }
}

/// The greeting at the root of the service.
pub fn index() -> (reply: Reply)
    ensures
        reply@ == (ReplyView {
            status: STATUS_OK,
            content_type: None,
            body: encode_utf8("Hello, world!"@),
        }),
{
    Reply { status: STATUS_OK, content_type: None, body: "Hello, world!".as_bytes_vec() }
}

/// The answer to a request for a card: the card with its attributes. Fails as
/// the lookup of the card does, and else as the lookup of its attributes.
pub fn route_get_card(card: Lookup<Card>, card_attributes: Lookup<Vec<CardAttribute>>) -> (result:
    Result<FullCardData, AppError>)
    ensures
        match (lookup_result(card), lookup_result(card_attributes)) {
            (Ok(found), Ok(attributes)) => result matches Ok(full) && full.card() == found@
                && full.card_attributes == attributes,
            (Ok(_), Err(error)) => result == Err::<FullCardData, AppError>(error),
            (Err(error), _) => result == Err::<FullCardData, AppError>(error),
        },
{
    let found = match card.require() {
        Ok(found) => found,
        Err(error) => {
            return Err(error);
        },
    };
    match card_attributes.require() {
        Ok(attributes) => Ok(FullCardData::new(found, attributes)),
        Err(error) => Err(error),
    }
}

/// The answer to a request for the preview of a card: its document, as HTML.
/// Fails as the lookup of the card does.
pub fn route_get_card_image_as_html(card: Lookup<Card>) -> (result: Result<Reply, AppError>)
    ensures
        match lookup_result(card) {
            Ok(found) => result matches Ok(reply) && reply@ == ok_reply(
                "text/html; charset=UTF-8"@,
                encode_utf8(single_card_document(found@)),
            ),
            Err(error) => result == Err::<Reply, AppError>(error),
        },
{
    match card.require() {
        Ok(found) => {
            let html = generate_card_image_html_string(&found);
            Ok(Reply::ok("text/html; charset=UTF-8", html.as_str().as_bytes_vec()))
        },
        Err(error) => Err(error),
    }
}

/// The answer to a request for the stylesheet of the cards, given what
/// reading its file yielded.
pub fn route_get_card_image_css(stylesheet: Result<Vec<u8>, String>) -> (result: Result<
    Reply,
    AppError,
>)
    ensures
        match file_result(stylesheet) {
            Ok(bytes) => result matches Ok(reply) && reply@ == ok_reply(
                "text/css; charset=UTF-8"@,
                bytes@,
            ),
            Err(error) => result == Err::<Reply, AppError>(error),
        },
{
    match stylesheet {
        Ok(bytes) => Ok(Reply::ok("text/css; charset=UTF-8", bytes)),
        Err(reason) => Err(AppError::Server(ServerError::FileIOError(reason))),
    }
}

/// The first step of a request for the image of a card: the job that renders
/// it. Fails as the lookup of the card does.
pub fn route_get_card_image_by_html(card: Lookup<Card>) -> (result: Result<RenderJob, AppError>)
    ensures
        match lookup_result(card) {
            Ok(found) => result matches Ok(job) && job@ == card_render_job(found@),
            Err(error) => result == Err::<RenderJob, AppError>(error),
        },
{
    match card.require() {
        Ok(found) => Ok(generate_card_image(&found)),
        Err(error) => Err(error),
    }
}

/// The last step of a request for an image: the answer that carries the
/// rendered image, given what reading its file yielded.
pub fn image_reply(image: Result<Vec<u8>, String>) -> (result: Result<Reply, AppError>)
    ensures
        match file_result(image) {
            Ok(bytes) => result matches Ok(reply) && reply@ == ok_reply("image/png"@, bytes@),
            Err(error) => result == Err::<Reply, AppError>(error),
        },
{
    match image {
        Ok(bytes) => Ok(Reply::ok("image/png", bytes)),
        Err(reason) => Err(AppError::Server(ServerError::FileIOError(reason))),
    }
}

/// The answer to a request that stores a card: created, with an empty body.
/// Fails as the write does.
pub fn route_put_card(stored: Store<()>) -> (result: Result<Reply, AppError>)
    ensures
        match store_result(stored) {
            Ok(_) => result matches Ok(reply) && reply@ == (ReplyView {
                status: STATUS_CREATED,
                content_type: None,
                body: Seq::empty(),
            }),
            Err(error) => result == Err::<Reply, AppError>(error),
        },
{
    match stored.require() {
        Ok(_) => Ok(Reply { status: STATUS_CREATED, content_type: None, body: Vec::new() }),
        Err(error) => Err(error),
    }
}

/// The answer to a request for a deck: its cards. Fails as the lookup does.
pub fn route_get_deck(cards: Lookup<Vec<Card>>) -> (result: Result<Vec<Card>, AppError>)
    ensures
        result == lookup_result(cards),
{
    cards.require()
}

/// What is wrong with a deck body that holds a word that is no card id.
pub open spec fn invalid_card_id_message() -> Seq<char> {
    "One of the strings provided was not a valid card id"@
}

/// The first step of a request that stores a deck: the card ids that its
/// body lists. Fails, with invalid input, exactly when a word of the body
/// is no card id.
pub fn route_put_deck(body: &str) -> (result: Result<Vec<i32>, AppError>)
    ensures
        match result {
            Ok(ids) => deck_ids(body@) == Some(id_values(ids@)),
            Err(error) => deck_ids(body@) is None && (error matches AppError::Client(
                ClientError::InvalidInput(message),
            ) && message@ == invalid_card_id_message()),
        },
{
    match parse_deck_ids(body) {
        Some(ids) => Ok(ids),
        None => Err(
            AppError::Client(
                ClientError::InvalidInput(
                    String::from_str("One of the strings provided was not a valid card id"),
                ),
            ),
        ),
    }
}

/// The first step of a request for the cardsheet of the deck `deck_name`:
/// the job that renders it. Fails as the lookup of its cards does, and with a
/// render failure where the deck is too large for a sheet.
pub fn route_get_deck_cardsheet(deck_name: &str, cards: Lookup<Vec<Card>>) -> (result: Result<
    RenderJob,
    AppError,
>)
    ensures
        match lookup_result(cards) {
            Ok(found) => if found.len() <= MAX_SHEET_CARDS {
                result matches Ok(job) && job@ == sheet_render_job(deck_name@, card_views(found@))
            } else {
                result == Err::<RenderJob, AppError>(AppError::Render(RenderError::SheetTooLarge))
            },
            Err(error) => result == Err::<RenderJob, AppError>(error),
        },
{
    match cards.require() {
        Ok(found) => match generate_deck_cardsheet_image(deck_name, found) {
            Ok(job) => Ok(job),
            Err(error) => Err(AppError::Render(error)),
        },
        Err(error) => Err(error),
    }
}

/// The answer to a query for decks by name: the decks found. Fails as the
/// lookup does.
pub fn route_query_decks<T>(decks: Lookup<Vec<T>>) -> (result: Result<Vec<T>, AppError>)
    ensures
        result == lookup_result(decks),
{
    decks.require()
}

/// The answer to a query for cards by name: the cards found. Fails as the
/// lookup does.
pub fn route_query_cards(cards: Lookup<Vec<Card>>) -> (result: Result<Vec<Card>, AppError>)
    ensures
        result == lookup_result(cards),
{
    cards.require()
}

} // verus!
