//! Plain data types shared by the drive operations and the callers.

use vstd::prelude::*;

verus! {

/// Where the sign-in conversation stands.
#[derive(Debug, Clone, PartialEq, Eq)]
pub enum AuthState {
    LoggedOut,
    AwaitingCode { phone: String, phone_code_hash: String },
    AwaitingPassword { phone: String },
    LoggedIn,
}

/// Outcome of a sign-in step, with the screen the caller should show next.
#[derive(Debug, Clone, PartialEq, Eq)]
pub struct AuthResult {
    pub success: bool,
    pub next_step: Option<String>,
    pub error: Option<String>,
}

/// A logical file: a media-bearing message projected into plain metadata.
#[derive(Debug, Clone, PartialEq, Eq)]
pub struct FileMetadata {
    pub id: i64,
    pub folder_id: Option<i64>,
    pub name: String,
    pub size: u64,
    pub mime_type: Option<String>,
    pub file_ext: Option<String>,
    pub created_at: String,
    pub icon_type: String,
}

/// A logical folder: a backend container in a flat namespace, so the parent
/// is always absent.
#[derive(Debug, Clone, PartialEq, Eq)]
pub struct FolderMetadata {
    pub id: i64,
    pub parent_id: Option<i64>,
    pub name: String,
}

/// A named drive root, as the caller's interface presents it.
#[derive(Debug, Clone, PartialEq, Eq)]
pub struct Drive {
    pub chat_id: i64,
    pub name: String,
    pub icon: Option<String>,
}

/// The media attached to a message, reduced to what the drive logic reads.
#[derive(Debug, Clone, PartialEq, Eq)]
pub enum MediaInfo {
    /// A document with its file name, declared byte size and MIME type.
    Document { name: String, size: i64, mime: Option<String> },
    /// A photo; the backend declares no size for it.
    Photo,
    /// Any other media kind.
    Other,
}

/// A message as the drive logic sees it: identifier, date and optional media.
#[derive(Debug, Clone, PartialEq, Eq)]
pub struct MessageInfo {
    pub id: i32,
    pub date: String,
    pub media: Option<MediaInfo>,
}

/// One entry of the caller's open-dialog list, reduced to what peer
/// resolution and folder discovery read.
#[derive(Debug, Clone, PartialEq, Eq)]
pub enum DialogPeer {
    /// A direct peer.
    User { id: i64 },
    /// A channel-like container, with the access token needed to address it.
    Channel { id: i64, access_hash: Option<i64>, title: String },
    /// Any other dialog kind; never matched by folder resolution.
    Other,
}

} // verus!
