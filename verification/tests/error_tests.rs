use telegram_drive::errors::{classify, map_error, DriveError};

#[test]
fn rate_limit_with_value_classifies_to_its_seconds() {
    let text = "RPC error 420: FLOOD_WAIT (caused by messages.SendMessage) (value: 45)";
    assert_eq!(classify(text), DriveError::RateLimited(45));
    assert_eq!(map_error(text), "FLOOD_WAIT_45");
}

#[test]
fn rate_limit_without_parsable_value_defaults_to_sixty() {
    let text = "FLOOD_WAIT reported without any number";
    assert_eq!(classify(text), DriveError::RateLimited(60));
    assert_eq!(map_error(text), "FLOOD_WAIT_60");

    let garbled = "FLOOD_WAIT (value: soon)";
    assert_eq!(classify(garbled), DriveError::RateLimited(60));
    assert_eq!(map_error(garbled), "FLOOD_WAIT_60");

    let unclosed = "FLOOD_WAIT (value: 45";
    assert_eq!(classify(unclosed), DriveError::RateLimited(60));
    assert_eq!(map_error(unclosed), "FLOOD_WAIT_60");
}

#[test]
fn first_value_marker_wins() {
    let text = "FLOOD_WAIT (value: 7) and later (value: 9)";
    assert_eq!(classify(text), DriveError::RateLimited(7));
    assert_eq!(map_error(text), "FLOOD_WAIT_7");
}

#[test]
fn other_errors_pass_through_unchanged() {
    let text = "PHONE_NUMBER_INVALID";
    assert_eq!(classify(text), DriveError::RemoteCallFailed(text.to_string()));
    assert_eq!(map_error(text), text);
}

#[test]
fn error_messages() {
    assert_eq!(DriveError::SessionNotInitialized.message(), "Client not initialized");
    assert_eq!(DriveError::PeerNotFound(42).message(), "Folder/Chat 42 not found");
    assert_eq!(DriveError::RateLimited(45).message(), "FLOOD_WAIT_45");
    assert_eq!(
        DriveError::RemoteCallFailed("boom".to_string()).message(),
        "boom"
    );
    assert_eq!(
        DriveError::LocalIoFailed("disk full".to_string()).message(),
        "disk full"
    );
}
