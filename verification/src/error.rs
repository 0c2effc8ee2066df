//! All the ways operations of this crate can fail.

use vstd::prelude::*;
use crate::text::push_all;

verus! {

/// All the ways operations in this crate can fail.
///
/// Failures that come from outside libraries (the HTTP client, the JSON
/// parser, the file system, the async runtime) carry that library's message.
#[derive(Debug, Clone)]
pub enum CopernicusError {
    AuthenticationFailed(String),
    HttpError(String),
    JsonError(String),
    SearchFailed(String),
    DownloadFailed(String),
    NoResults,
    InvalidArgument(String),
    IoError(String),
    RuntimeError(String),
    S3Error(String),
}

/// An error as plain values: its kind and message.
pub enum ErrorView {
    AuthenticationFailed(Seq<char>),
    HttpError(Seq<char>),
    JsonError(Seq<char>),
    SearchFailed(Seq<char>),
    DownloadFailed(Seq<char>),
    NoResults,
    InvalidArgument(Seq<char>),
    IoError(Seq<char>),
    RuntimeError(Seq<char>),
    S3Error(Seq<char>),
}

impl View for CopernicusError {
    type V = ErrorView;

    open spec fn view(&self) -> ErrorView {
        match self {
            CopernicusError::AuthenticationFailed(m) => ErrorView::AuthenticationFailed(m@),
            CopernicusError::HttpError(m) => ErrorView::HttpError(m@),
            CopernicusError::JsonError(m) => ErrorView::JsonError(m@),
            CopernicusError::SearchFailed(m) => ErrorView::SearchFailed(m@),
            CopernicusError::DownloadFailed(m) => ErrorView::DownloadFailed(m@),
            CopernicusError::NoResults => ErrorView::NoResults,
            CopernicusError::InvalidArgument(m) => ErrorView::InvalidArgument(m@),
            CopernicusError::IoError(m) => ErrorView::IoError(m@),
            CopernicusError::RuntimeError(m) => ErrorView::RuntimeError(m@),
            CopernicusError::S3Error(m) => ErrorView::S3Error(m@),
        }
    }
}

impl CopernicusError {
    /// The text this error displays.
    pub open spec fn message_spec(self) -> Seq<char> {
        match self {
            CopernicusError::AuthenticationFailed(m) => "authentication failed: "@ + m@,
            CopernicusError::HttpError(m) => "HTTP request failed: "@ + m@,
            CopernicusError::JsonError(m) => "failed to parse JSON response: "@ + m@,
            CopernicusError::SearchFailed(m) => "search failed: "@ + m@,
            CopernicusError::DownloadFailed(m) => "download failed: "@ + m@,
            CopernicusError::NoResults => "search returned zero results"@,
            CopernicusError::InvalidArgument(m) => "invalid argument: "@ + m@,
            CopernicusError::IoError(m) => "I/O error: "@ + m@,
            CopernicusError::RuntimeError(m) => "async runtime error: "@ + m@,
            CopernicusError::S3Error(m) => "S3 error: "@ + m@,
        }
    }

    /// The text this error displays, e.g. `invalid argument: ...`.
    pub fn message(&self) -> (r: String)
        ensures
            r@ == self.message_spec(),
    {
        let mut r = String::new();
        match self {
            CopernicusError::AuthenticationFailed(m) => {
                push_all(&mut r, "authentication failed: ");
                push_all(&mut r, m.as_str());
            },
            CopernicusError::HttpError(m) => {
                push_all(&mut r, "HTTP request failed: ");
                push_all(&mut r, m.as_str());
            },
            CopernicusError::JsonError(m) => {
                push_all(&mut r, "failed to parse JSON response: ");
                push_all(&mut r, m.as_str());
            },
            CopernicusError::SearchFailed(m) => {
                push_all(&mut r, "search failed: ");
                push_all(&mut r, m.as_str());
            },
            CopernicusError::DownloadFailed(m) => {
                push_all(&mut r, "download failed: ");
                push_all(&mut r, m.as_str());
            },
            CopernicusError::NoResults => {
                push_all(&mut r, "search returned zero results");
            },
            CopernicusError::InvalidArgument(m) => {
                push_all(&mut r, "invalid argument: ");
                push_all(&mut r, m.as_str());
            },
            CopernicusError::IoError(m) => {
                push_all(&mut r, "I/O error: ");
                push_all(&mut r, m.as_str());
            },
            CopernicusError::RuntimeError(m) => {
                push_all(&mut r, "async runtime error: ");
                push_all(&mut r, m.as_str());
            },
            CopernicusError::S3Error(m) => {
                push_all(&mut r, "S3 error: ");
                push_all(&mut r, m.as_str());
            },
        }
        r
    }
}

} // verus!
