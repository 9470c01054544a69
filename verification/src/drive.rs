//! Decision logic of the drive operations: folder discovery and naming,
//! file-listing projection, message lookup, move planning, and the transfer
//! sizes the bandwidth accountant is charged with.

use vstd::prelude::*;
use crate::models::{DialogPeer, FileMetadata, FolderMetadata, MediaInfo, MessageInfo};
use crate::text::{
    ci_matches_at, contains_ci, contains_ci_sub, contains_seq, contains_sub, dec_str,
    last_index_of, last_index_of_char, lemma_contains_of_match, lemma_last_index_some, remove_all,
    remove_all_spec, trim_chars, trim_spec, u64_to_string,
};

verus! {

/// The listing keeps at most this many files per folder, to bound latency.
pub const LIST_PAGE_SIZE: usize = 100;

/// How a move of messages between folders proceeds.
#[derive(Debug, Clone, Copy, PartialEq, Eq)]
pub enum MovePlan {
    /// Source and target are the same folder: succeed without any remote call.
    NoOp,
    /// Forward the messages to the target, then delete them from the source.
    ForwardThenDelete,
}

/// Plan a move: moving a message onto its own folder is a no-op, anything
/// else is the two-step forward-then-delete protocol.
pub fn move_plan(source_folder_id: Option<i64>, target_folder_id: Option<i64>) -> (r: MovePlan)
    ensures
        r is NoOp <==> source_folder_id == target_folder_id,
{
    let same = match (source_folder_id, target_folder_id) {
        (None, None) => true,
        (Some(a), Some(b)) => a == b,
        _ => false,
    };
    if same {
        MovePlan::NoOp
    } else {
        MovePlan::ForwardThenDelete
    }
}

/// The marker a folder's container name carries, matched without regard to
/// ASCII case.
pub open spec fn name_marker() -> Seq<char> {
    "[td]"@
}

/// The marker a folder's container description carries.
pub open spec fn about_marker() -> Seq<char> {
    "[telegram-drive-folder]"@
}

/// A container name shown to the caller: every spelling of the name marker
/// removed, then surrounding whitespace trimmed.
pub open spec fn display_name_spec(n: Seq<char>) -> Seq<char> {
    trim_spec(
        remove_all_spec(
            remove_all_spec(remove_all_spec(remove_all_spec(n, " [TD]"@), " [td]"@), "[TD]"@),
            "[td]"@,
        ),
    )
}

/// What the folder scan does with one container name.
#[derive(Debug, Clone, PartialEq, Eq)]
pub enum ScanStep {
    /// The name carries the marker: this is a folder, discovered without any
    /// further round trip, under its cleaned display name.
    Folder(FolderMetadata),
    /// The name says nothing; only the container's description can decide,
    /// which costs a full-info fetch.
    FetchAbout,
}

/// Classify a container by its name.  The name marker wins outright and
/// short-circuits the costlier description check.
pub fn scan_name_step(id: i64, name: &str) -> (r: ScanStep)
    ensures
        contains_ci(name@, name_marker()) ==> (r matches ScanStep::Folder(f) && f.id == id
            && f.parent_id is None && f.name@ == display_name_spec(name@)),
        !contains_ci(name@, name_marker()) ==> r == ScanStep::FetchAbout,
{
    proof {
        reveal_strlit("[td]");
        reveal_strlit("[TD]");
        reveal_strlit(" [td]");
        reveal_strlit(" [TD]");
    }
    if contains_ci_sub(name, "[td]") {
        let d1 = remove_all(name, " [TD]");
        let d2 = remove_all(d1.as_str(), " [td]");
        let d3 = remove_all(d2.as_str(), "[TD]");
        let d4 = remove_all(d3.as_str(), "[td]");
        let display = String::from_str(trim_chars(d4.as_str()));
        ScanStep::Folder(FolderMetadata { id, parent_id: None, name: display })
    } else {
        ScanStep::FetchAbout
    }
}

/// Classify a container by its description, for names without the marker: it
/// is a folder exactly when the description carries the description marker,
/// and then keeps its name untouched.
pub fn scan_about_step(id: i64, name: &str, about: &str) -> (r: Option<FolderMetadata>)
    ensures
        contains_seq(about@, about_marker()) <==> r is Some,
        r matches Some(f) ==> f.id == id && f.parent_id is None && f.name@ == name@,
{
    proof {
        reveal_strlit("[telegram-drive-folder]");
    }
    if contains_sub(about, "[telegram-drive-folder]") {
        Some(FolderMetadata { id, parent_id: None, name: String::from_str(name) })
    } else {
        None
    }
}

/// The request that creates a folder: a broadcast container whose title
/// carries the name marker and whose description carries the description
/// marker, so the scan will rediscover it by either route.
pub struct CreateFolderRequest {
    pub title: String,
    pub about: String,
    pub broadcast: bool,
    pub megagroup: bool,
}

/// Build the container-creation request for a new folder.
pub fn create_folder_request(name: &str) -> (r: CreateFolderRequest)
    ensures
        r.title@ == name@ + " [TD]"@,
        r.about@ == "Telegram Drive Storage Folder\n[telegram-drive-folder]"@,
        r.broadcast,
        !r.megagroup,
        contains_seq(r.about@, about_marker()),
        contains_ci(r.title@, name_marker()),
{
    proof {
        reveal_strlit(" [TD]");
        reveal_strlit("[td]");
        reveal_strlit("[telegram-drive-folder]");
        reveal_strlit("Telegram Drive Storage Folder\n[telegram-drive-folder]");
    }
    let mut title = String::from_str(name);
    title.append(" [TD]");
    let about = String::from_str("Telegram Drive Storage Folder\n[telegram-drive-folder]");
    proof {
        let t = title@;
        let nlen = name@.len() as int;
        assert(ci_matches_at(t, name_marker(), nlen + 1)) by {
            assert(t[nlen + 1] == '[');
            assert(t[nlen + 2] == 'T');
            assert(t[nlen + 3] == 'D');
            assert(t[nlen + 4] == ']');
        }
        assert(contains_ci(t, name_marker()));
        let a = about@;
        assert(crate::text::matches_at(a, about_marker(), 30));
        lemma_contains_of_match(a, about_marker(), 30);
    }
    CreateFolderRequest { title, about, broadcast: true, megagroup: false }
}

/// The follow-up request after creating a folder: switch off any default
/// auto-expiry on the container, so stored files are not silently purged.
pub struct DisableAutoExpiryRequest {
    pub channel_id: i64,
    pub access_hash: i64,
    /// The history time-to-live to set; zero means no expiry.
    pub period: i32,
}

/// Build the best-effort request that disables auto-expiry on a freshly
/// created container.
pub fn disable_auto_expiry_request(channel_id: i64, access_hash: i64) -> (r:
    DisableAutoExpiryRequest)
    ensures
        r.channel_id == channel_id,
        r.access_hash == access_hash,
        r.period == 0,
{
    DisableAutoExpiryRequest { channel_id, access_hash, period: 0 }
}

/// The folder metadata reported back for a freshly created container, under
/// the caller's plain name.
pub fn created_folder_metadata(chat_id: i64, name: String) -> (r: FolderMetadata)
    ensures
        r.id == chat_id,
        r.parent_id is None,
        r.name@ == name@,
{
    FolderMetadata { id: chat_id, parent_id: None, name }
}

/// The container a folder deletion must address: only a channel-like dialog
/// with its access token qualifies.
pub fn delete_folder_target(d: &DialogPeer) -> (r: Result<(i64, i64), String>)
    ensures
        *d matches DialogPeer::Channel { id, access_hash: Some(h), .. } ==> r == Ok::<
            (i64, i64),
            String,
        >((id, h)),
        *d matches DialogPeer::Channel { access_hash: None, .. } ==> (r matches Err(e) && e@
            == "No access hash for channel"@),
        !(*d is Channel) ==> (r matches Err(e) && e@
            == "Only channels (folders) can be deleted."@),
{
    match d {
        DialogPeer::Channel { id, access_hash: Some(h), .. } => Ok((*id, *h)),
        DialogPeer::Channel { access_hash: None, .. } => Err(
            String::from_str("No access hash for channel"),
        ),
        _ => Err(String::from_str("Only channels (folders) can be deleted.")),
    }
}

/// Position of the message with this identifier, scanning in order.
pub fn find_message(msgs: &Vec<MessageInfo>, message_id: i32) -> (r: Option<usize>)
    ensures
        r matches Some(i) ==> i < msgs@.len() && msgs@[i as int].id == message_id && (forall|
            k: int,
        | 0 <= k < i ==> msgs@[k].id != message_id),
        r is None ==> forall|k: int| 0 <= k < msgs@.len() ==> msgs@[k].id != message_id,
{
    let mut i: usize = 0;
    while i < msgs.len()
        invariant
            i <= msgs@.len(),
            forall|k: int| 0 <= k < i ==> msgs@[k].id != message_id,
        decreases msgs@.len() - i,
    {
        if msgs[i].id == message_id {
            return Some(i);
        }
        i += 1;
    }
    None
}

/// The bytes a transfer of this media is charged with: a document's declared
/// size, a flat megabyte for a photo (the backend declares none), nothing for
/// other media.
pub fn media_charge_size(media: &MediaInfo) -> (r: u64)
    ensures
        media matches MediaInfo::Document { size, .. } ==> r == size as u64,
        media is Photo ==> r == 1048576,
        media is Other ==> r == 0,
{
    match media {
        MediaInfo::Document { size, .. } => *size as u64,
        MediaInfo::Photo => 1024 * 1024,
        MediaInfo::Other => 0,
    }
}

/// Mathematical model of one listed file.
pub ghost struct FileModel {
    pub id: int,
    pub folder_id: Option<i64>,
    pub name: Seq<char>,
    pub size: int,
    pub mime: Option<Seq<char>>,
    pub ext: Option<Seq<char>>,
    pub created_at: Seq<char>,
    pub icon: Seq<char>,
}

/// The model of a metadata value.
pub open spec fn file_model(f: FileMetadata) -> FileModel {
    FileModel {
        id: f.id as int,
        folder_id: f.folder_id,
        name: f.name@,
        size: f.size as int,
        mime: match f.mime_type {
            Some(m) => Some(m@),
            None => None,
        },
        ext: match f.file_ext {
            Some(e) => Some(e@),
            None => None,
        },
        created_at: f.created_at@,
        icon: f.icon_type@,
    }
}

/// The final path component of a document name: what follows the last
/// separator, or the whole name when it has none.
pub open spec fn file_component(s: Seq<char>) -> Seq<char> {
    match last_index_of(s, '/') {
        Some(i) => s.skip(i + 1),
        None => s,
    }
}

/// The extension of a file name: what follows the last dot of its final path
/// component, unless the component has no dot or starts with its only dot.
pub open spec fn ext_of_name_spec(s: Seq<char>) -> Option<Seq<char>> {
    let comp = file_component(s);
    match last_index_of(comp, '.') {
        Some(i) => if i == 0 {
            None
        } else {
            Some(comp.skip(i + 1))
        },
        None => None,
    }
}

/// The extension of a file name, as the listing reports it.
pub fn ext_of_name(name: &str) -> (r: Option<String>)
    ensures
        r is Some <==> ext_of_name_spec(name@) is Some,
        r matches Some(e) ==> (ext_of_name_spec(name@) matches Some(x) && e@ == x),
{
    let len = name.unicode_len();
    let comp_start: usize = match last_index_of_char(name, '/') {
        Some(i) => {
            proof {
                lemma_last_index_some(name@, '/', i as int);
            }
            i + 1
        },
        None => 0,
    };
    let comp = name.substring_char(comp_start, len);
    proof {
        assert(comp@ =~= file_component(name@));
    }
    let clen = comp.unicode_len();
    match last_index_of_char(comp, '.') {
        Some(i) => {
            proof {
                lemma_last_index_some(comp@, '.', i as int);
            }
            if i == 0 {
                None
            } else {
                let e = comp.substring_char(i + 1, clen);
                proof {
                    assert(e@ =~= comp@.skip(i + 1));
                }
                Some(String::from_str(e))
            }
        },
        None => None,
    }
}

/// The file entry a message projects to, when it carries media.
pub open spec fn spec_file_entry(m: MessageInfo, folder_id: Option<i64>) -> Option<FileModel> {
    match m.media {
        None => None,
        Some(MediaInfo::Document { name, size, mime }) => Some(
            FileModel {
                id: m.id as int,
                folder_id,
                name: name@,
                size: (size as u64) as int,
                mime: match mime {
                    Some(mm) => Some(mm@),
                    None => None,
                },
                ext: ext_of_name_spec(name@),
                created_at: m.date@,
                icon: "file"@,
            },
        ),
        Some(MediaInfo::Photo) => Some(
            FileModel {
                id: m.id as int,
                folder_id,
                name: "Photo.jpg"@,
                size: 0,
                mime: Some("image/jpeg"@),
                ext: Some("jpg"@),
                created_at: m.date@,
                icon: "file"@,
            },
        ),
        Some(MediaInfo::Other) => Some(
            FileModel {
                id: m.id as int,
                folder_id,
                name: "Unknown"@,
                size: 0,
                mime: None,
                ext: None,
                created_at: m.date@,
                icon: "file"@,
            },
        ),
    }
}

/// Project one message into file metadata, when it carries media.
pub fn file_from_message(msg: &MessageInfo, folder_id: Option<i64>) -> (r: Option<FileMetadata>)
    ensures
        r is Some <==> spec_file_entry(*msg, folder_id) is Some,
        r matches Some(f) ==> (spec_file_entry(*msg, folder_id) matches Some(fm) && file_model(f)
            == fm),
{
    proof {
        reveal_strlit("file");
        reveal_strlit("Photo.jpg");
        reveal_strlit("image/jpeg");
        reveal_strlit("jpg");
        reveal_strlit("Unknown");
    }
    match &msg.media {
        None => None,
        Some(MediaInfo::Document { name, size, mime }) => {
            let f = FileMetadata {
                id: msg.id as i64,
                folder_id,
                name: name.clone(),
                size: *size as u64,
                mime_type: match mime {
                    Some(mm) => Some(mm.clone()),
                    None => None,
                },
                file_ext: ext_of_name(name.as_str()),
                created_at: msg.date.clone(),
                icon_type: String::from_str("file"),
            };
            proof {
                assert(file_model(f) =~= spec_file_entry(*msg, folder_id)->Some_0);
            }
            Some(f)
        },
        Some(MediaInfo::Photo) => {
            let f = FileMetadata {
                id: msg.id as i64,
                folder_id,
                name: String::from_str("Photo.jpg"),
                size: 0,
                mime_type: Some(String::from_str("image/jpeg")),
                file_ext: Some(String::from_str("jpg")),
                created_at: msg.date.clone(),
                icon_type: String::from_str("file"),
            };
            proof {
                assert(file_model(f) =~= spec_file_entry(*msg, folder_id)->Some_0);
            }
            Some(f)
        },
        Some(MediaInfo::Other) => {
            let f = FileMetadata {
                id: msg.id as i64,
                folder_id,
                name: String::from_str("Unknown"),
                size: 0,
                mime_type: None,
                file_ext: None,
                created_at: msg.date.clone(),
                icon_type: String::from_str("file"),
            };
            proof {
                assert(file_model(f) =~= spec_file_entry(*msg, folder_id)->Some_0);
            }
            Some(f)
        },
    }
}

/// The listing of a message sequence: media-bearing messages projected in
/// order, stopping once `room` entries are kept.
pub open spec fn spec_list_files(msgs: Seq<MessageInfo>, folder_id: Option<i64>, room: nat) -> Seq<
    FileModel,
>
    decreases msgs.len(),
{
    if msgs.len() == 0 || room == 0 {
        Seq::empty()
    } else {
        match spec_file_entry(msgs[0], folder_id) {
            Some(f) => seq![f] + spec_list_files(
                msgs.drop_first(),
                folder_id,
                (room - 1) as nat,
            ),
            None => spec_list_files(msgs.drop_first(), folder_id, room),
        }
    }
}

proof fn lemma_list_step(msgs: Seq<MessageInfo>, folder_id: Option<i64>, i: int, room: nat)
    requires
        0 <= i < msgs.len(),
        room > 0,
    ensures
        spec_file_entry(msgs[i], folder_id) matches Some(fm) ==> spec_list_files(
            msgs.skip(i),
            folder_id,
            room,
        ) == seq![fm] + spec_list_files(msgs.skip(i + 1), folder_id, (room - 1) as nat),
        spec_file_entry(msgs[i], folder_id) is None ==> spec_list_files(
            msgs.skip(i),
            folder_id,
            room,
        ) == spec_list_files(msgs.skip(i + 1), folder_id, room),
{
    let t = msgs.skip(i);
    assert(t[0] == msgs[i]);
    assert(t.drop_first() =~= msgs.skip(i + 1));
}

/// List a folder: keep the media-bearing messages in order, projected into
/// file metadata, capped at the page size.
pub fn list_files(msgs: &Vec<MessageInfo>, folder_id: Option<i64>) -> (r: Vec<FileMetadata>)
    ensures
        r@.map_values(|f: FileMetadata| file_model(f)) == spec_list_files(
            msgs@,
            folder_id,
            LIST_PAGE_SIZE as nat,
        ),
        r@.len() <= LIST_PAGE_SIZE,
{
    let mut out: Vec<FileMetadata> = Vec::new();
    let mut i: usize = 0;
    let mut kept: usize = 0;
    proof {
        assert(msgs@.skip(0) =~= msgs@);
        assert(out@.map_values(|f: FileMetadata| file_model(f)) =~= Seq::<FileModel>::empty());
    }
    while i < msgs.len() && kept < LIST_PAGE_SIZE
        invariant
            i <= msgs@.len(),
            kept <= LIST_PAGE_SIZE,
            out@.len() == kept,
            out@.map_values(|f: FileMetadata| file_model(f)) + spec_list_files(
                msgs@.skip(i as int),
                folder_id,
                (LIST_PAGE_SIZE - kept) as nat,
            ) == spec_list_files(msgs@, folder_id, LIST_PAGE_SIZE as nat),
        decreases msgs@.len() - i,
    {
        let ghost before = out@.map_values(|f: FileMetadata| file_model(f));
        match file_from_message(&msgs[i], folder_id) {
            Some(f) => {
                proof {
                    lemma_list_step(msgs@, folder_id, i as int, (LIST_PAGE_SIZE - kept) as nat);
                }
                let ghost fm = file_model(f);
                out.push(f);
                kept += 1;
                proof {
                    assert(out@.map_values(|f: FileMetadata| file_model(f)) =~= before.push(fm));
                    assert(before.push(fm) + spec_list_files(
                        msgs@.skip(i + 1),
                        folder_id,
                        (LIST_PAGE_SIZE - kept) as nat,
                    ) =~= before + (seq![fm] + spec_list_files(
                        msgs@.skip(i + 1),
                        folder_id,
                        (LIST_PAGE_SIZE - kept) as nat,
                    )));
                }
            },
            None => {
                proof {
                    lemma_list_step(msgs@, folder_id, i as int, (LIST_PAGE_SIZE - kept) as nat);
                }
            },
        }
        i += 1;
    }
    proof {
        if kept == LIST_PAGE_SIZE {
            assert(spec_list_files(msgs@.skip(i as int), folder_id, 0) =~= Seq::<
                FileModel,
            >::empty());
        } else {
            assert(msgs@.skip(i as int) =~= Seq::<MessageInfo>::empty());
        }
        assert(out@.map_values(|f: FileMetadata| file_model(f)) + Seq::<FileModel>::empty()
            =~= out@.map_values(|f: FileMetadata| file_model(f)));
    }
    out
}

/// The fixed sample listing used when no session is active: three entries,
/// stamped relative to the caller's clock, the third falling in the folder
/// being listed.
pub fn get_mock_files(folder_id: Option<i64>, now: u64) -> (r: Vec<FileMetadata>)
    requires
        now >= 86400,
    ensures
        r@.len() == 3,
        r@[0].id == 1001 && r@[0].folder_id is None && r@[0].name@ == "Mock_Project_Specs.pdf"@
            && r@[0].size == 2048000 && (r@[0].mime_type matches Some(m) && m@
            == "application/pdf"@) && (r@[0].file_ext matches Some(e) && e@ == "pdf"@) && r@[0].icon_type@
            == "file"@ && r@[0].created_at@ == dec_str(now as int),
        r@[1].id == 1002 && r@[1].folder_id == Some(999i64) && r@[1].name@
            == "Vacation_Photos.zip"@ && r@[1].size == 154000000 && (r@[1].mime_type matches Some(
            m,
        ) && m@ == "application/zip"@) && (r@[1].file_ext matches Some(e) && e@ == "zip"@)
            && r@[1].icon_type@ == "file"@ && r@[1].created_at@ == dec_str(now - 86400),
        r@[2].id == 1003 && r@[2].folder_id == folder_id && r@[2].name@ == "Notes.txt"@
            && r@[2].size == 1024 && (r@[2].mime_type matches Some(m) && m@ == "text/plain"@) && (
        r@[2].file_ext matches Some(e) && e@ == "txt"@) && r@[2].icon_type@ == "file"@
            && r@[2].created_at@ == dec_str(now as int),
{
    let mut out: Vec<FileMetadata> = Vec::new();
    out.push(
        FileMetadata {
            id: 1001,
            folder_id: None,
            name: String::from_str("Mock_Project_Specs.pdf"),
            size: 2048000,
            mime_type: Some(String::from_str("application/pdf")),
            file_ext: Some(String::from_str("pdf")),
            created_at: u64_to_string(now),
            icon_type: String::from_str("file"),
        },
    );
    out.push(
        FileMetadata {
            id: 1002,
            folder_id: Some(999),
            name: String::from_str("Vacation_Photos.zip"),
            size: 154000000,
            mime_type: Some(String::from_str("application/zip")),
            file_ext: Some(String::from_str("zip")),
            created_at: u64_to_string(now - 86400),
            icon_type: String::from_str("file"),
        },
    );
    out.push(
        FileMetadata {
            id: 1003,
            folder_id,
            name: String::from_str("Notes.txt"),
            size: 1024,
            mime_type: Some(String::from_str("text/plain")),
            file_ext: Some(String::from_str("txt")),
            created_at: u64_to_string(now),
            icon_type: String::from_str("file"),
        },
    );
    out
}

} // verus!
