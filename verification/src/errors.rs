//! Error taxonomy and the classifier that recognizes rate-limit responses in
//! backend error text.

use vstd::prelude::*;
use crate::bandwidth::{format_bytes_spec, format_bytes_string};
use crate::text::{
    contains_seq, contains_sub, find_index, find_sub, i64_to_string, int_str,
    lemma_find_index_some, parse_i64, parse_i64_spec,
};

verus! {

/// The marker that identifies a rate-limit response in backend error text.
pub open spec fn flood_marker() -> Seq<char> {
    "FLOOD_WAIT"@
}

/// Structured outcome of a failed operation.
#[derive(Debug, Clone, PartialEq, Eq)]
pub enum DriveError {
    /// No live session exists for the requested operation.
    SessionNotInitialized,
    /// No open container carries the requested folder identifier.
    PeerNotFound(i64),
    /// The transfer would push the day's total past the configured ceiling.
    QuotaExceeded { limit: u64, attempted: u64 },
    /// The backend asked the caller to wait this many seconds.
    RateLimited(i64),
    /// Any other backend failure, with the backend's own text.
    RemoteCallFailed(String),
    /// A local disk failure, with the operating system's text.
    LocalIoFailed(String),
}

impl DriveError {
    /// Human-readable text for each outcome, as the command surface reports it.
    pub fn message(&self) -> (r: String)
        ensures
            self is SessionNotInitialized ==> r@ == "Client not initialized"@,
            self matches DriveError::PeerNotFound(id) ==> r@ == "Folder/Chat "@ + int_str(
                id as int,
            ) + " not found"@,
            self matches DriveError::QuotaExceeded { limit, attempted } ==> r@
                == "Daily bandwidth limit ("@ + format_bytes_spec(limit as int)
                + ") exceeded! Used: "@ + format_bytes_spec(attempted as int),
            self matches DriveError::RateLimited(secs) ==> r@ == "FLOOD_WAIT_"@ + int_str(
                secs as int,
            ),
            self matches DriveError::RemoteCallFailed(m) ==> r@ == m@,
            self matches DriveError::LocalIoFailed(m) ==> r@ == m@,
    {
        match self {
            DriveError::SessionNotInitialized => String::from_str("Client not initialized"),
            DriveError::PeerNotFound(id) => {
                let mut s = String::from_str("Folder/Chat ");
                s.append(i64_to_string(*id).as_str());
                s.append(" not found");
                proof {
                    assert(s@ =~= "Folder/Chat "@ + int_str(*id as int) + " not found"@);
                }
                s
            },
            DriveError::QuotaExceeded { limit, attempted } => {
                let mut s = String::from_str("Daily bandwidth limit (");
                s.append(format_bytes_string(*limit).as_str());
                s.append(") exceeded! Used: ");
                s.append(format_bytes_string(*attempted).as_str());
                proof {
                    assert(s@ =~= "Daily bandwidth limit ("@ + format_bytes_spec(*limit as int)
                        + ") exceeded! Used: "@ + format_bytes_spec(*attempted as int));
                }
                s
            },
            DriveError::RateLimited(secs) => {
                let mut s = String::from_str("FLOOD_WAIT_");
                s.append(i64_to_string(*secs).as_str());
                s
            },
            DriveError::RemoteCallFailed(m) => m.clone(),
            DriveError::LocalIoFailed(m) => m.clone(),
        }
    }
}

/// The retry delay encoded in rate-limited error text: the digits between the
/// first `(value: ` and the next `)`, or 60 when no such number parses.
pub open spec fn flood_wait_seconds_spec(s: Seq<char>) -> i64 {
    match find_index(s, "(value: "@) {
        Some(i) => {
            let rest = s.skip(i + "(value: "@.len() as int);
            match find_index(rest, ")"@) {
                Some(j) => match parse_i64_spec(rest.take(j)) {
                    Some(v) => v,
                    None => 60,
                },
                None => 60,
            }
        },
        None => 60,
    }
}

/// Extract the advertised wait from rate-limited error text.
fn flood_wait_seconds(text: &str) -> (r: i64)
    ensures
        r == flood_wait_seconds_spec(text@),
{
    proof {
        reveal_strlit("(value: ");
        reveal_strlit(")");
    }
    match find_sub(text, "(value: ") {
        Some(start) => {
            proof {
                lemma_find_index_some(text@, "(value: "@, start as int);
            }
            let len = text.unicode_len();
            let rest = text.substring_char(start + 8, len);
            proof {
                assert(rest@ =~= text@.skip(start + "(value: "@.len() as int));
            }
            match find_sub(rest, ")") {
                Some(end) => {
                    proof {
                        lemma_find_index_some(rest@, ")"@, end as int);
                    }
                    let num = rest.substring_char(0, end);
                    proof {
                        assert(num@ =~= rest@.take(end as int));
                    }
                    match parse_i64(num) {
                        Some(v) => v,
                        None => 60,
                    }
                },
                None => 60,
            }
        },
        None => 60,
    }
}

/// Classify backend error text: a message carrying the rate-limit marker
/// becomes a structured wait, everything else passes through as a terminal
/// failure with the original text.
pub fn classify(text: &str) -> (r: DriveError)
    ensures
        contains_seq(text@, flood_marker()) ==> r == DriveError::RateLimited(
            flood_wait_seconds_spec(text@),
        ),
        !contains_seq(text@, flood_marker()) ==> (r matches DriveError::RemoteCallFailed(m)
            && m@ == text@),
{
    proof {
        reveal_strlit("FLOOD_WAIT");
    }
    if contains_sub(text, "FLOOD_WAIT") {
        DriveError::RateLimited(flood_wait_seconds(text))
    } else {
        DriveError::RemoteCallFailed(String::from_str(text))
    }
}

/// What normalizing error text yields: the rate-limit tag with its delay, or
/// the text unchanged.
pub open spec fn map_error_spec(s: Seq<char>) -> Seq<char> {
    if contains_seq(s, flood_marker()) {
        "FLOOD_WAIT_"@ + int_str(flood_wait_seconds_spec(s) as int)
    } else {
        s
    }
}

/// Normalize backend error text for the caller: rate limits become a
/// `FLOOD_WAIT_<seconds>` tag, everything else passes through unchanged.
pub fn map_error(text: &str) -> (r: String)
    ensures
        r@ == map_error_spec(text@),
{
    proof {
        reveal_strlit("FLOOD_WAIT");
        reveal_strlit("FLOOD_WAIT_");
    }
    if contains_sub(text, "FLOOD_WAIT") {
        let secs = flood_wait_seconds(text);
        let mut s = String::from_str("FLOOD_WAIT_");
        s.append(i64_to_string(secs).as_str());
        s
    } else {
        String::from_str(text)
    }
}

} // verus!
