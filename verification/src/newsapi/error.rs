//! The ways in which a fetch fails.

use vstd::prelude::*;
use vstd::string::StringExecFns;

verus! {

/// What the API's answer carries when a key has been disabled.
pub const API_KEY_DISABLED: &'static str = "Your API key is disabled";

/// What stands for every other failure that the API reports.
pub const UNKNOWN: &'static str = "Unknown";

/// A failed fetch.
#[derive(Debug, PartialEq, Eq)]
pub enum NewsAPIError {
    /// The request did not go through: no connection, no name, no TLS, a
    /// timeout, a refusal. The text is the transport's own account of it.
    RequestFailed(String),
    /// An answer arrived and its body could not be read.
    FailedResponseToString(String),
    /// The body is not JSON, or not JSON of the shape of a response.
    ArticleParseFailed,
    /// No request URL could be made of the base URL.
    UrlParsing,
    /// The API answered, and reported a failure of its own.
    BadRequest(&'static str),
    /// The request, sent without blocking, did not go through.
    AsyncRequestFailed(String),
}

/// A failed fetch, as contracts speak of it.
pub enum ErrorView {
    RequestFailed(Seq<char>),
    FailedResponseToString(Seq<char>),
    ArticleParseFailed,
    UrlParsing,
    BadRequest(Seq<char>),
    AsyncRequestFailed(Seq<char>),
}

impl View for NewsAPIError {
    type V = ErrorView;

    open spec fn view(&self) -> ErrorView {
        match *self {
            NewsAPIError::RequestFailed(cause) => ErrorView::RequestFailed(cause@),
            NewsAPIError::FailedResponseToString(cause) => ErrorView::FailedResponseToString(
                cause@,
            ),
            NewsAPIError::ArticleParseFailed => ErrorView::ArticleParseFailed,
            NewsAPIError::UrlParsing => ErrorView::UrlParsing,
            NewsAPIError::BadRequest(reason) => ErrorView::BadRequest(reason@),
            NewsAPIError::AsyncRequestFailed(cause) => ErrorView::AsyncRequestFailed(cause@),
        }
    }
}

impl ErrorView {
    /// The line that describes this failure to a reader.
    pub open spec fn message(self) -> Seq<char> {
        match self {
            ErrorView::RequestFailed(_) => "Failed fetching articles"@,
            ErrorView::FailedResponseToString(_) => "Failed to convert response to string"@,
            ErrorView::ArticleParseFailed => "Article parsing failed"@,
            ErrorView::UrlParsing => "Url parsing failed"@,
            ErrorView::BadRequest(reason) => "Request failed: "@ + reason,
            ErrorView::AsyncRequestFailed(_) => "Async Request Failed"@,
        }
    }
}

impl NewsAPIError {
    /// The line that describes this failure to a reader.
    pub fn message(&self) -> (line: String)
        ensures
            line@ == self@.message(),
    {
        match self {
            NewsAPIError::RequestFailed(_) => String::from_str("Failed fetching articles"),
            NewsAPIError::FailedResponseToString(_) => String::from_str(
                "Failed to convert response to string",
            ),
            NewsAPIError::ArticleParseFailed => String::from_str("Article parsing failed"),
            NewsAPIError::UrlParsing => String::from_str("Url parsing failed"),
            NewsAPIError::BadRequest(reason) => String::from_str("Request failed: ").concat(reason),
            NewsAPIError::AsyncRequestFailed(_) => String::from_str("Async Request Failed"),
        }
    }

    /// Whether the API disabled the key that the request carried.
    pub fn is_api_key_disabled(&self) -> (disabled: bool)
        ensures
            disabled == (self@ == ErrorView::BadRequest(API_KEY_DISABLED@)),
    {
        match self {
            NewsAPIError::BadRequest(reason) => {
                let reason: String = String::from_str(reason);
                let disabled: String = String::from_str(API_KEY_DISABLED);
                reason == disabled
            },
            _ => false,
        }
    }
}

} // verus!
