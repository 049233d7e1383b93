use cardego_server::errors::{AppError, ClientError, RetrievalError};
use cardego_server::image::retrieval::{
    conclude_retrieval, plan_retrieval, retrieval_failure, ArtSource, RetrievalPlan,
    TransferOutcome, UrlParts,
};
use cardego_server::image::retrieve_image;

fn local_plan() -> RetrievalPlan {
    RetrievalPlan {
        source: ArtSource::LocalFile(String::from("/tmp/x.png")),
        destination: String::from("runtime/data/cards/images/7-art.png"),
    }
}

fn remote_plan() -> RetrievalPlan {
    RetrievalPlan {
        source: ArtSource::Remote(String::from("http://example.com/art/x.png")),
        destination: String::from("runtime/data/cards/images/7-art.png"),
    }
}

#[test]
fn file_url_is_read_from_its_path() {
    assert_eq!(retrieve_image("file:///tmp/x.png", 7), Ok(local_plan()));
}

#[test]
fn upper_case_file_scheme_is_a_file_too() {
    assert_eq!(retrieve_image("FILE:///tmp/x.png", 7), Ok(local_plan()));
}

#[test]
fn http_url_is_fetched() {
    assert_eq!(retrieve_image("http://example.com/art/x.png", 7), Ok(remote_plan()));
}

#[test]
fn https_url_is_fetched_as_given() {
    let planned = retrieve_image("https://example.com/a%20b.png?size=2", -3).unwrap();
    assert_eq!(planned.source, ArtSource::Remote(String::from("https://example.com/a%20b.png?size=2")));
    assert_eq!(planned.destination, "runtime/data/cards/images/-3-art.png");
}

#[test]
fn text_that_is_no_url_is_malformed() {
    assert_eq!(retrieve_image("/tmp/x.png", 7), Err(RetrievalError::MalformedUrl));
    assert_eq!(retrieve_image("", 7), Err(RetrievalError::MalformedUrl));
    assert_eq!(retrieve_image("http://[bad", 7), Err(RetrievalError::MalformedUrl));
}

#[test]
fn plan_goes_by_the_scheme() {
    let file = UrlParts { scheme: String::from("file"), path: String::from("/a/b") };
    assert_eq!(
        plan_retrieval("file:///a/b", Some(file), 1).unwrap().source,
        ArtSource::LocalFile(String::from("/a/b"))
    );
    let ftp = UrlParts { scheme: String::from("ftp"), path: String::from("/a/b") };
    assert_eq!(
        plan_retrieval("ftp://host/a/b", Some(ftp), 1).unwrap().source,
        ArtSource::Remote(String::from("ftp://host/a/b"))
    );
    let files = UrlParts { scheme: String::from("files"), path: String::from("/a/b") };
    assert_eq!(
        plan_retrieval("files:///a/b", Some(files), 1).unwrap().source,
        ArtSource::Remote(String::from("files:///a/b"))
    );
    assert_eq!(plan_retrieval("nonsense", None, 1), Err(RetrievalError::MalformedUrl));
}

#[test]
fn stored_transfer_gives_the_destination() {
    assert_eq!(
        conclude_retrieval(local_plan(), TransferOutcome::Stored),
        Ok(String::from("runtime/data/cards/images/7-art.png"))
    );
    assert_eq!(
        conclude_retrieval(remote_plan(), TransferOutcome::Stored),
        Ok(String::from("runtime/data/cards/images/7-art.png"))
    );
}

#[test]
fn unreadable_local_file_is_not_found() {
    assert_eq!(
        conclude_retrieval(local_plan(), TransferOutcome::SourceUnavailable),
        Err(RetrievalError::NotFound)
    );
}

#[test]
fn failed_fetch_is_a_failed_transfer() {
    assert_eq!(
        conclude_retrieval(remote_plan(), TransferOutcome::SourceUnavailable),
        Err(RetrievalError::TransferFailed)
    );
}

#[test]
fn unwritable_destination_is_a_failed_transfer() {
    assert_eq!(
        conclude_retrieval(local_plan(), TransferOutcome::DestinationUnwritable),
        Err(RetrievalError::TransferFailed)
    );
    assert_eq!(
        conclude_retrieval(remote_plan(), TransferOutcome::DestinationUnwritable),
        Err(RetrievalError::TransferFailed)
    );
}

#[test]
fn malformed_address_of_the_caller_is_invalid_input() {
    let failure = retrieval_failure(RetrievalError::MalformedUrl, true);
    assert_eq!(
        failure,
        AppError::Client(ClientError::InvalidInput(String::from(
            "The address of the artwork is not a URL"
        )))
    );
    assert_eq!(failure.status_code(), 400);
}

#[test]
fn other_retrieval_failures_are_the_service_s() {
    assert_eq!(
        retrieval_failure(RetrievalError::MalformedUrl, false),
        AppError::Retrieval(RetrievalError::MalformedUrl)
    );
    assert_eq!(
        retrieval_failure(RetrievalError::NotFound, true),
        AppError::Retrieval(RetrievalError::NotFound)
    );
    assert_eq!(
        retrieval_failure(RetrievalError::TransferFailed, true).status_code(),
        500
    );
}
