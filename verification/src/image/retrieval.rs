//! Bringing the artwork of a card into place: from which source it comes, to
//! which file it goes, and what a failed transfer means.

use vstd::prelude::*;
use vstd::string::StringExecFns;
use crate::errors::{AppError, ClientError, RetrievalError};
use crate::image::paths::{card_art_path, card_art_path_spec};

verus! {

/// The parts of a URL that deciding on its retrieval reads.
#[derive(Debug, PartialEq, Eq)]
pub struct UrlParts {
    /// The scheme, without the colon.
    pub scheme: String,
    /// The path, as the URL writes it.
    pub path: String,
}

/// Scheme and path of the URL that the text `input` parses to, or `None`
/// where the text is no URL.
pub uninterp spec fn url_components(input: Seq<char>) -> Option<(Seq<char>, Seq<char>)>;

/// Scheme and path of some URL parts, as mathematical values.
pub open spec fn parts_view(parts: Option<UrlParts>) -> Option<(Seq<char>, Seq<char>)> {
    match parts {
        Some(p) => Some((p.scheme@, p.path@)),
        None => None,
    }
}

/// `Url::parse` with `Url::scheme` and `Url::path`: parses `input` as an
/// absolute URL and hands out its scheme and its path, or `None` where the
/// parser rejects the text. The outcome is a function of the text alone.
#[verifier::external_body]
pub(crate) fn parse_url(input: &str) -> (parts: Option<UrlParts>)
    ensures
        parts_view(parts) == url_components(input@),
{
    match reqwest::Url::parse(input) {
        Ok(url) => Some(UrlParts { scheme: url.scheme().to_string(), path: url.path().to_string() }),
        Err(_) => None,
    }
}

/// Where the artwork comes from.
#[derive(Debug, PartialEq, Eq)]
pub enum ArtSource {
    /// A file on this machine, by its path.
    LocalFile(String),
    /// A remote resource, by its URL.
    Remote(String),
}

/// Where the artwork comes from, as mathematical values.
pub ghost enum ArtSourceView {
    LocalFile(Seq<char>),
    Remote(Seq<char>),
}

impl View for ArtSource {
    type V = ArtSourceView;

    open spec fn view(&self) -> ArtSourceView {
        match self {
            ArtSource::LocalFile(path) => ArtSourceView::LocalFile(path@),
            ArtSource::Remote(url) => ArtSourceView::Remote(url@),
        }
    }
}

/// One retrieval: the bytes of `source` are to be written to `destination`,
/// replacing what is there.
#[derive(Debug, PartialEq, Eq)]
pub struct RetrievalPlan {
    pub source: ArtSource,
    pub destination: String,
}

/// A retrieval, as mathematical values.
pub ghost struct RetrievalPlanView {
    pub source: ArtSourceView,
    pub destination: Seq<char>,
}

impl View for RetrievalPlan {
    type V = RetrievalPlanView;

    open spec fn view(&self) -> RetrievalPlanView {
        RetrievalPlanView { source: self.source@, destination: self.destination@ }
    }
}

/// The retrieval of the artwork at `url` for the card `card_id`, given the
/// parts that the address parses to. An address that does not parse is
/// malformed. One with the scheme `file` names a local file by its path;
/// any other is fetched as a remote resource. The destination depends on the
/// card alone.
pub open spec fn retrieval_plan(
    url: Seq<char>,
    components: Option<(Seq<char>, Seq<char>)>,
    card_id: int,
) -> Result<RetrievalPlanView, RetrievalError> {
    match components {
        None => Err(RetrievalError::MalformedUrl),
        Some((scheme, path)) => Ok(
            RetrievalPlanView {
                source: if scheme == "file"@ {
                    ArtSourceView::LocalFile(path)
                } else {
                    ArtSourceView::Remote(url)
                },
                destination: card_art_path_spec(card_id),
            },
        ),
    }
}

/// A planned retrieval or its refusal, as mathematical values.
pub open spec fn planned_view(planned: Result<RetrievalPlan, RetrievalError>) -> Result<
    RetrievalPlanView,
    RetrievalError,
> {
    match planned {
        Ok(plan) => Ok(plan@),
        Err(error) => Err(error),
    }
}

/// Plans the retrieval of the artwork at `url` for the card `card_id`, from
/// the parts that the address was parsed to.
pub fn plan_retrieval(url: &str, parts: Option<UrlParts>, card_id: i32) -> (planned: Result<
    RetrievalPlan,
    RetrievalError,
>)
    ensures
        planned_view(planned) == retrieval_plan(url@, parts_view(parts), card_id as int),
{
    match parts {
        None => Err(RetrievalError::MalformedUrl),
        Some(parts) => {
            let file_scheme = String::from_str("file");
            let source = if parts.scheme == file_scheme {
                ArtSource::LocalFile(parts.path)
            } else {
                ArtSource::Remote(String::from_str(url))
            };
            Ok(RetrievalPlan { source, destination: card_art_path(card_id) })
        },
    }
}

/// How the transfer of a planned retrieval ended.
#[derive(Clone, Copy, Debug, PartialEq, Eq, Structural)]
pub enum TransferOutcome {
    /// The destination holds all the bytes of the source.
    Stored,
    /// The source could not be read or fetched.
    SourceUnavailable,
    /// The destination could not be created or written.
    DestinationUnwritable,
}

/// What a retrieval comes to, given how its transfer ended: the destination
/// path after a complete transfer; not found where a local file could not be
/// read; a failed transfer in every other case.
pub open spec fn retrieval_result(plan: RetrievalPlanView, outcome: TransferOutcome) -> Result<
    Seq<char>,
    RetrievalError,
> {
    match outcome {
        TransferOutcome::Stored => Ok(plan.destination),
        TransferOutcome::SourceUnavailable => match plan.source {
            ArtSourceView::LocalFile(_) => Err(RetrievalError::NotFound),
            ArtSourceView::Remote(_) => Err(RetrievalError::TransferFailed),
        },
        TransferOutcome::DestinationUnwritable => Err(RetrievalError::TransferFailed),
    }
}

/// Concludes a retrieval whose transfer ended with `outcome`.
pub fn conclude_retrieval(plan: RetrievalPlan, outcome: TransferOutcome) -> (result: Result<
    String,
    RetrievalError,
>)
    ensures
        match result {
            Ok(path) => retrieval_result(plan@, outcome) == Ok::<Seq<char>, RetrievalError>(path@),
            Err(error) => retrieval_result(plan@, outcome) == Err::<Seq<char>, RetrievalError>(
                error,
            ),
        },
{
    match outcome {
        TransferOutcome::Stored => Ok(plan.destination),
        TransferOutcome::SourceUnavailable => match plan.source {
            ArtSource::LocalFile(_) => Err(RetrievalError::NotFound),
            ArtSource::Remote(_) => Err(RetrievalError::TransferFailed),
        },
        TransferOutcome::DestinationUnwritable => Err(RetrievalError::TransferFailed),
    }
}

/// What a malformed address is called where the caller supplied it.
pub open spec fn malformed_url_message() -> Seq<char> {
    "The address of the artwork is not a URL"@
}

/// The failure that a failed retrieval ends a request with: the caller's
/// invalid input where the caller supplied an address that is no URL, and a
/// retrieval failure of the service in every other case.
pub fn retrieval_failure(error: RetrievalError, caller_supplied: bool) -> (failure: AppError)
    ensures
        if caller_supplied && error == RetrievalError::MalformedUrl {
            failure matches AppError::Client(ClientError::InvalidInput(message)) && message@
                == malformed_url_message()
        } else {
            failure == AppError::Retrieval(error)
        },
{
    match error {
        RetrievalError::MalformedUrl => if caller_supplied {
            AppError::Client(
                ClientError::InvalidInput(String::from_str("The address of the artwork is not a URL")),
            )
        } else {
            AppError::Retrieval(RetrievalError::MalformedUrl)
        },
        other => AppError::Retrieval(other),
    }
}

} // verus!
