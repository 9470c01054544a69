//! Peer resolution: map an optional logical folder identifier to a backend
//! peer.  No folder means the caller's own identity; a folder identifier is
//! looked up by a linear scan of the open dialogs in their given order.

use vstd::prelude::*;
use crate::errors::DriveError;
use crate::models::DialogPeer;

verus! {

/// The peer a drive operation should address.
#[derive(Debug, Clone, Copy, PartialEq, Eq)]
pub enum PeerChoice {
    /// The caller's own identity peer (the home folder).
    Me,
    /// The dialog at this position of the scanned list.
    Dialog(usize),
}

/// The dialog answers to this folder identifier.  Only direct peers and
/// channel-like containers are addressable; other dialog kinds never match.
pub open spec fn dialog_matches(d: DialogPeer, fid: i64) -> bool {
    ||| (d matches DialogPeer::User { id } && id == fid)
    ||| (d matches DialogPeer::Channel { id, .. } && id == fid)
}

/// Resolve an optional folder identifier against the open dialogs.  Without
/// an identifier the answer is always the caller's own identity, whatever the
/// dialog list holds; with one, the first matching dialog wins, and
/// exhausting the list is a not-found error.
pub fn resolve(dialogs: &Vec<DialogPeer>, folder_id: Option<i64>) -> (r: Result<
    PeerChoice,
    DriveError,
>)
    ensures
        folder_id is None ==> r == Ok::<PeerChoice, DriveError>(PeerChoice::Me),
        folder_id matches Some(fid) ==> match r {
            Ok(c) => c matches PeerChoice::Dialog(i) && i < dialogs@.len() && dialog_matches(
                dialogs@[i as int],
                fid,
            ) && (forall|k: int| 0 <= k < i ==> !dialog_matches(dialogs@[k], fid)),
            Err(e) => e == DriveError::PeerNotFound(fid) && (forall|k: int|
                0 <= k < dialogs@.len() ==> !dialog_matches(dialogs@[k], fid)),
        },
{
    let fid = match folder_id {
        None => {
            return Ok(PeerChoice::Me);
        },
        Some(f) => f,
    };
    let mut i: usize = 0;
    while i < dialogs.len()
        invariant
            folder_id == Some(fid),
            i <= dialogs@.len(),
            forall|k: int| 0 <= k < i ==> !dialog_matches(dialogs@[k], fid),
        decreases dialogs@.len() - i,
    {
        let hit = match &dialogs[i] {
            DialogPeer::User { id } => *id == fid,
            DialogPeer::Channel { id, .. } => *id == fid,
            DialogPeer::Other => false,
        };
        proof {
            assert(hit == dialog_matches(dialogs@[i as int], fid));
        }
        if hit {
            return Ok(PeerChoice::Dialog(i));
        }
        i += 1;
    }
    Err(DriveError::PeerNotFound(fid))
}

} // verus!
