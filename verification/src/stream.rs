//! The streaming endpoint's pure parts: parsing the folder token of the
//! request path, the declared size and MIME type of the media, and the
//! status code for each outcome.

use vstd::prelude::*;
use crate::models::MediaInfo;
use crate::text::{parse_i64, parse_i64_spec, str_eq};

verus! {

/// Parse the folder token of a stream request: the sentinels name the home
/// folder, any decimal number names a container, anything else is malformed.
pub fn parse_folder_token(token: &str) -> (r: Option<Option<i64>>)
    ensures
        (token@ == "me"@ || token@ == "home"@ || token@ == "null"@) ==> r == Some(None::<i64>),
        !(token@ == "me"@ || token@ == "home"@ || token@ == "null"@) ==> match parse_i64_spec(
            token@,
        ) {
            Some(v) => r == Some(Some(v)),
            None => r is None,
        },
{
    if str_eq(token, "me") || str_eq(token, "home") || str_eq(token, "null") {
        Some(None)
    } else {
        match parse_i64(token) {
            Some(v) => Some(Some(v)),
            None => None,
        }
    }
}

/// The MIME type a stream is served under: the document's own type, or the
/// opaque default.
pub fn mime_type_from_media(media: &MediaInfo) -> (r: String)
    ensures
        *media matches MediaInfo::Document { mime: Some(m), .. } ==> r@ == m@,
        *media matches MediaInfo::Document { mime: None, .. } ==> r@
            == "application/octet-stream"@,
        !(*media is Document) ==> r@ == "application/octet-stream"@,
{
    match media {
        MediaInfo::Document { mime: Some(m), .. } => m.clone(),
        _ => String::from_str("application/octet-stream"),
    }
}

/// The declared length of a stream: a document's size; photos and other
/// media declare none.
pub fn stream_content_size(media: &MediaInfo) -> (r: i64)
    ensures
        *media matches MediaInfo::Document { size, .. } ==> r == size,
        !(*media is Document) ==> r == 0,
{
    match media {
        MediaInfo::Document { size, .. } => *size,
        _ => 0,
    }
}

/// How a stream request ends.
#[derive(Debug, Clone, Copy, PartialEq, Eq)]
pub enum StreamOutcome {
    /// The media was found; relay it chunk by chunk.
    Ready,
    /// The folder token was malformed.
    BadToken,
    /// No session is active.
    NoSession,
    /// The message or its media is absent.
    NotFound,
    /// Peer resolution failed along the way.
    ResolveFailed,
    /// Fetching the message failed along the way.
    FetchFailed,
}

/// The HTTP status each outcome is answered with.
pub fn stream_status_code(o: &StreamOutcome) -> (r: u16)
    ensures
        *o is Ready ==> r == 200,
        *o is BadToken ==> r == 400,
        *o is NoSession ==> r == 503,
        *o is NotFound ==> r == 404,
        *o is ResolveFailed ==> r == 500,
        *o is FetchFailed ==> r == 500,
{
    match o {
        StreamOutcome::Ready => 200,
        StreamOutcome::BadToken => 400,
        StreamOutcome::NoSession => 503,
        StreamOutcome::NotFound => 404,
        StreamOutcome::ResolveFailed => 500,
        StreamOutcome::FetchFailed => 500,
    }
}

} // verus!
