//! Progress-event constructors and their wire names.

use ivlyrics_helper::events::already_exists_event;
use ivlyrics_helper::events::checking_event;
use ivlyrics_helper::events::completed_event;
use ivlyrics_helper::events::downloading_event;
use ivlyrics_helper::events::error_event;
use ivlyrics_helper::events::processing_event;
use ivlyrics_helper::DownloadStatus;

#[test]
fn wire_names() {
    assert_eq!(DownloadStatus::Checking.wire_name(), "checking");
    assert_eq!(DownloadStatus::Downloading.wire_name(), "downloading");
    assert_eq!(DownloadStatus::Processing.wire_name(), "processing");
    assert_eq!(DownloadStatus::Completed.wire_name(), "completed");
    assert_eq!(DownloadStatus::Error.wire_name(), "error");
    assert_eq!(DownloadStatus::AlreadyExists.wire_name(), "already-exists");
}

#[test]
fn terminal_statuses() {
    assert!(DownloadStatus::Completed.is_terminal());
    assert!(DownloadStatus::Error.is_terminal());
    assert!(DownloadStatus::AlreadyExists.is_terminal());
    assert!(!DownloadStatus::Checking.is_terminal());
    assert!(!DownloadStatus::Downloading.is_terminal());
    assert!(!DownloadStatus::Processing.is_terminal());
}

#[test]
fn event_labels() {
    assert_eq!(DownloadStatus::Completed.event_label(), "complete");
    assert_eq!(DownloadStatus::Error.event_label(), "complete");
    assert_eq!(DownloadStatus::Downloading.event_label(), "progress");
    assert_eq!(DownloadStatus::Checking.event_label(), "progress");
}

#[test]
fn constructors_pin_fields() {
    let e = checking_event("abc".to_string(), "msg".to_string());
    assert!(matches!(e.status, DownloadStatus::Checking));
    assert_eq!(e.percent_tenths, Some(0));
    assert_eq!(e.message.as_deref(), Some("msg"));

    let e = downloading_event("abc".to_string(), 255, "1MiB/s".to_string(), "00:10".to_string());
    assert!(matches!(e.status, DownloadStatus::Downloading));
    assert_eq!(e.percent_tenths, Some(255));
    assert_eq!(e.speed.as_deref(), Some("1MiB/s"));
    assert_eq!(e.eta.as_deref(), Some("00:10"));
    assert_eq!(e.message.as_deref(), Some("Downloading: 25.5%"));

    let e = processing_event("abc".to_string());
    assert_eq!(e.percent_tenths, Some(990));
    assert_eq!(e.message.as_deref(), Some("Processing..."));

    let e = completed_event("abc".to_string(), "url".to_string());
    assert_eq!(e.percent_tenths, Some(1000));
    assert_eq!(e.message.as_deref(), Some("url"));

    let e = error_event("abc".to_string(), "why".to_string());
    assert_eq!(e.percent_tenths, None);
    assert_eq!(e.message.as_deref(), Some("why"));

    let e = already_exists_event("abc".to_string(), "url".to_string());
    assert!(matches!(e.status, DownloadStatus::AlreadyExists));
    assert_eq!(e.message.as_deref(), Some("url"));
}
