use telegram_drive::drive::{
    create_folder_request, created_folder_metadata, delete_folder_target,
    disable_auto_expiry_request, ext_of_name, file_from_message, find_message, get_mock_files,
    list_files, media_charge_size, move_plan, scan_about_step, scan_name_step, MovePlan, ScanStep,
};
use telegram_drive::errors::DriveError;
use telegram_drive::models::{DialogPeer, FolderMetadata, MediaInfo, MessageInfo};
use telegram_drive::resolver::{resolve, PeerChoice};

#[test]
fn move_onto_same_folder_is_a_no_op() {
    assert_eq!(move_plan(Some(5), Some(5)), MovePlan::NoOp);
    assert_eq!(move_plan(None, None), MovePlan::NoOp);
    assert_eq!(move_plan(Some(5), Some(6)), MovePlan::ForwardThenDelete);
    assert_eq!(move_plan(None, Some(5)), MovePlan::ForwardThenDelete);
    assert_eq!(move_plan(Some(5), None), MovePlan::ForwardThenDelete);
}

#[test]
fn resolve_without_folder_is_own_identity() {
    // Whatever the dialog list holds, and in whatever order, no folder means
    // the caller's own identity peer.
    let empty: Vec<DialogPeer> = Vec::new();
    assert_eq!(resolve(&empty, None), Ok(PeerChoice::Me));
    let full = vec![
        DialogPeer::Channel { id: 1, access_hash: Some(9), title: "A".to_string() },
        DialogPeer::User { id: 2 },
        DialogPeer::Other,
    ];
    assert_eq!(resolve(&full, None), Ok(PeerChoice::Me));
    let reversed: Vec<DialogPeer> = full.into_iter().rev().collect();
    assert_eq!(resolve(&reversed, None), Ok(PeerChoice::Me));
}

#[test]
fn resolve_finds_the_first_matching_dialog() {
    let dialogs = vec![
        DialogPeer::Other,
        DialogPeer::User { id: 7 },
        DialogPeer::Channel { id: 9, access_hash: Some(1), title: "B".to_string() },
        DialogPeer::Channel { id: 7, access_hash: Some(2), title: "C".to_string() },
    ];
    assert_eq!(resolve(&dialogs, Some(7)), Ok(PeerChoice::Dialog(1)));
    assert_eq!(resolve(&dialogs, Some(9)), Ok(PeerChoice::Dialog(2)));
    assert_eq!(resolve(&dialogs, Some(4)), Err(DriveError::PeerNotFound(4)));
}

#[test]
fn folder_discovered_by_name_marker() {
    // A name carrying the marker is a folder at once, under its cleaned
    // display name, and no description fetch is needed.
    let step = scan_name_step(31, "Photos [TD]");
    assert_eq!(
        step,
        ScanStep::Folder(FolderMetadata { id: 31, parent_id: None, name: "Photos".to_string() })
    );
    assert_ne!(step, ScanStep::FetchAbout);
}

#[test]
fn display_names_shed_unicode_whitespace() {
    // A no-break space left around the marker is trimmed like any space.
    assert_eq!(
        scan_name_step(4, "Photos [TD]\u{00A0}"),
        ScanStep::Folder(FolderMetadata { id: 4, parent_id: None, name: "Photos".to_string() })
    );
}

#[test]
fn name_marker_is_matched_without_regard_to_case() {
    assert_eq!(
        scan_name_step(1, "archive [td]"),
        ScanStep::Folder(FolderMetadata { id: 1, parent_id: None, name: "archive".to_string() })
    );
    assert_eq!(scan_name_step(2, "No marker here"), ScanStep::FetchAbout);
}

#[test]
fn folder_discovered_by_description_marker() {
    let hit = scan_about_step(5, "Backups", "Storage\n[telegram-drive-folder]");
    assert_eq!(
        hit,
        Some(FolderMetadata { id: 5, parent_id: None, name: "Backups".to_string() })
    );
    assert_eq!(scan_about_step(5, "Backups", "an ordinary channel"), None);
}

#[test]
fn create_folder_request_carries_both_markers() {
    let r = create_folder_request("Docs");
    assert_eq!(r.title, "Docs [TD]");
    assert_eq!(r.about, "Telegram Drive Storage Folder\n[telegram-drive-folder]");
    assert!(r.broadcast);
    assert!(!r.megagroup);
    // The scan rediscovers what creation tagged.
    assert_eq!(
        scan_name_step(8, &r.title),
        ScanStep::Folder(FolderMetadata { id: 8, parent_id: None, name: "Docs".to_string() })
    );
    let m = created_folder_metadata(8, "Docs".to_string());
    assert_eq!(m, FolderMetadata { id: 8, parent_id: None, name: "Docs".to_string() });
}

#[test]
fn delete_folder_needs_an_addressable_channel() {
    let ok = DialogPeer::Channel { id: 3, access_hash: Some(77), title: "T".to_string() };
    assert_eq!(delete_folder_target(&ok), Ok((3, 77)));
    let no_hash = DialogPeer::Channel { id: 3, access_hash: None, title: "T".to_string() };
    assert_eq!(delete_folder_target(&no_hash), Err("No access hash for channel".to_string()));
    assert_eq!(
        delete_folder_target(&DialogPeer::User { id: 3 }),
        Err("Only channels (folders) can be deleted.".to_string())
    );
}

#[test]
fn find_message_scans_in_order() {
    let msgs = vec![
        MessageInfo { id: 10, date: "a".to_string(), media: None },
        MessageInfo { id: 20, date: "b".to_string(), media: None },
    ];
    assert_eq!(find_message(&msgs, 20), Some(1));
    assert_eq!(find_message(&msgs, 30), None);
}

#[test]
fn media_charge_sizes() {
    let doc = MediaInfo::Document { name: "a.bin".to_string(), size: 12345, mime: None };
    assert_eq!(media_charge_size(&doc), 12345);
    assert_eq!(media_charge_size(&MediaInfo::Photo), 1024 * 1024);
    assert_eq!(media_charge_size(&MediaInfo::Other), 0);
}

#[test]
fn extension_follows_the_last_dot() {
    assert_eq!(ext_of_name("report.pdf"), Some("pdf".to_string()));
    assert_eq!(ext_of_name("archive.tar.gz"), Some("gz".to_string()));
    assert_eq!(ext_of_name("noext"), None);
    assert_eq!(ext_of_name(".hidden"), None);
    assert_eq!(ext_of_name("trailing."), Some("".to_string()));
}

#[test]
fn extension_comes_from_the_final_path_component() {
    assert_eq!(ext_of_name("dir.v2/file"), None);
    assert_eq!(ext_of_name("dir/file.txt"), Some("txt".to_string()));
    assert_eq!(ext_of_name("dir.v2/file.txt"), Some("txt".to_string()));
    assert_eq!(ext_of_name("dir/.hidden"), None);
}

#[test]
fn auto_expiry_is_disabled_with_a_zero_period() {
    let r = disable_auto_expiry_request(7, 99);
    assert_eq!(r.channel_id, 7);
    assert_eq!(r.access_hash, 99);
    assert_eq!(r.period, 0);
}

#[test]
fn listing_keeps_only_media_messages() {
    let msgs = vec![
        MessageInfo { id: 1, date: "d1".to_string(), media: None },
        MessageInfo {
            id: 2,
            date: "d2".to_string(),
            media: Some(MediaInfo::Document {
                name: "notes.txt".to_string(),
                size: 64,
                mime: Some("text/plain".to_string()),
            }),
        },
        MessageInfo { id: 3, date: "d3".to_string(), media: Some(MediaInfo::Photo) },
        MessageInfo { id: 4, date: "d4".to_string(), media: Some(MediaInfo::Other) },
    ];
    let files = list_files(&msgs, Some(77));
    assert_eq!(files.len(), 3);

    assert_eq!(files[0].id, 2);
    assert_eq!(files[0].folder_id, Some(77));
    assert_eq!(files[0].name, "notes.txt");
    assert_eq!(files[0].size, 64);
    assert_eq!(files[0].mime_type, Some("text/plain".to_string()));
    assert_eq!(files[0].file_ext, Some("txt".to_string()));
    assert_eq!(files[0].created_at, "d2");
    assert_eq!(files[0].icon_type, "file");

    assert_eq!(files[1].id, 3);
    assert_eq!(files[1].name, "Photo.jpg");
    assert_eq!(files[1].size, 0);
    assert_eq!(files[1].mime_type, Some("image/jpeg".to_string()));
    assert_eq!(files[1].file_ext, Some("jpg".to_string()));

    assert_eq!(files[2].id, 4);
    assert_eq!(files[2].name, "Unknown");
    assert_eq!(files[2].mime_type, None);
    assert_eq!(files[2].file_ext, None);
}

#[test]
fn listing_is_capped_at_the_page_size() {
    let mut msgs = Vec::new();
    for i in 0..150 {
        msgs.push(MessageInfo { id: i, date: "d".to_string(), media: Some(MediaInfo::Photo) });
    }
    let files = list_files(&msgs, None);
    assert_eq!(files.len(), 100);
    assert_eq!(files[0].id, 0);
    assert_eq!(files[99].id, 99);
}

#[test]
fn negative_document_size_wraps_as_unsigned() {
    let msg = MessageInfo {
        id: 9,
        date: "d".to_string(),
        media: Some(MediaInfo::Document { name: "x.bin".to_string(), size: -1, mime: None }),
    };
    let f = file_from_message(&msg, None).unwrap();
    assert_eq!(f.size, u64::MAX);
}

#[test]
fn mock_listing_has_its_three_entries() {
    let files = get_mock_files(Some(55), 1_000_000);
    assert_eq!(files.len(), 3);
    assert_eq!(files[0].id, 1001);
    assert_eq!(files[0].name, "Mock_Project_Specs.pdf");
    assert_eq!(files[0].size, 2048000);
    assert_eq!(files[0].mime_type, Some("application/pdf".to_string()));
    assert_eq!(files[0].file_ext, Some("pdf".to_string()));
    assert_eq!(files[0].folder_id, None);
    assert_eq!(files[0].created_at, "1000000");
    assert_eq!(files[1].id, 1002);
    assert_eq!(files[1].folder_id, Some(999));
    assert_eq!(files[1].created_at, "913600");
    assert_eq!(files[2].id, 1003);
    assert_eq!(files[2].folder_id, Some(55));
    assert_eq!(files[2].name, "Notes.txt");
}
