//! The single-flight registry and the acquisition session.

use ivlyrics_helper::credentials::Browser;
use ivlyrics_helper::credentials::Credential;
use ivlyrics_helper::events::downloading_event;
use ivlyrics_helper::parse::parse_download_line;
use ivlyrics_helper::events::DownloadStatus;
use ivlyrics_helper::registry::SubscribeAction;
use ivlyrics_helper::session::AcquisitionSession;
use ivlyrics_helper::session::AttemptOutcome;
use ivlyrics_helper::session::SessionAction;
use ivlyrics_helper::DownloadCoordinator;
use ivlyrics_helper::DownloadProgress;

fn launch_ticket(a: SubscribeAction) -> u64 {
    match a {
        SubscribeAction::Launch { ticket } => ticket,
        SubscribeAction::Subscribe { .. } => panic!("expected a launch"),
    }
}

#[test]
fn concurrent_requests_share_one_acquisition() {
    // E3: two simultaneous requests for `mno` join one broadcast.
    let mut c = DownloadCoordinator::new();
    let t = launch_ticket(c.start_or_subscribe("mno"));
    match c.start_or_subscribe("mno") {
        SubscribeAction::Subscribe { ticket } => assert_eq!(ticket, t),
        SubscribeAction::Launch { .. } => panic!("second request must join, not launch"),
    }
    match c.start_or_subscribe("mno") {
        SubscribeAction::Subscribe { ticket } => assert_eq!(ticket, t),
        SubscribeAction::Launch { .. } => panic!("third request must join, not launch"),
    }
}

#[test]
fn different_ids_are_independent() {
    let mut c = DownloadCoordinator::new();
    let t1 = launch_ticket(c.start_or_subscribe("abc"));
    let t2 = launch_ticket(c.start_or_subscribe("xyz"));
    assert_ne!(t1, t2);
}

#[test]
fn done_acquisition_relaunches() {
    let mut c = DownloadCoordinator::new();
    let t1 = launch_ticket(c.start_or_subscribe("abc"));
    c.mark_done("abc");
    let t2 = launch_ticket(c.start_or_subscribe("abc"));
    assert_ne!(t1, t2);
}

fn count_terminal(events: &[DownloadProgress]) -> usize {
    events.iter().filter(|e| e.status.is_terminal()).count()
}

#[test]
fn cache_miss_to_success() {
    // E2: checking, then the completed event carrying the final URL.
    let mut s = AcquisitionSession::new("xyz".to_string(), Vec::new());
    let step = s.start(None);
    assert_eq!(step.events.len(), 1);
    assert!(matches!(step.events[0].status, DownloadStatus::Checking));
    assert_eq!(
        step.events[0].message.as_deref(),
        Some("Checking video availability...")
    );
    assert!(matches!(
        step.action,
        SessionAction::Attempt { credential: None }
    ));
    let step = s.on_outcome(AttemptOutcome::Success { file_name: "xyz.webm".to_string() });
    assert_eq!(step.events.len(), 1);
    assert!(matches!(step.events[0].status, DownloadStatus::Completed));
    assert_eq!(
        step.events[0].message.as_deref(),
        Some("http://localhost:15123/video/files/xyz.webm")
    );
    assert!(matches!(step.action, SessionAction::Finished { success: true }));
    assert_eq!(count_terminal(&step.events), 1);
}

#[test]
fn cache_miss_full_event_sequence() {
    // E2: checking, downloading(25), downloading(75), completed, with
    // the final URL; the downloading events come from the parsed lines.
    let mut trace: Vec<DownloadProgress> = Vec::new();
    let mut s = AcquisitionSession::new("xyz".to_string(), Vec::new());
    trace.extend(s.start(None).events);
    for line in [
        "[download]  25.0% of 10.00MiB at 1.00MiB/s ETA 00:30",
        "[download]  75.0% of 10.00MiB at 1.00MiB/s ETA 00:10",
    ] {
        let p = parse_download_line(line).unwrap();
        trace.push(downloading_event("xyz".to_string(), p.percent_tenths, p.speed, p.eta));
    }
    trace.extend(
        s.on_outcome(AttemptOutcome::Success { file_name: "xyz.webm".to_string() }).events,
    );
    let statuses: Vec<&str> = trace.iter().map(|e| e.status.wire_name()).collect();
    assert_eq!(statuses, vec!["checking", "downloading", "downloading", "completed"]);
    assert_eq!(trace[1].percent_tenths, Some(250));
    assert_eq!(trace[2].percent_tenths, Some(750));
    assert_eq!(
        trace[3].message.as_deref(),
        Some("http://localhost:15123/video/files/xyz.webm")
    );
    assert_eq!(count_terminal(&trace), 1);
}

#[test]
fn cache_hit_at_task_start_is_already_exists() {
    let mut s = AcquisitionSession::new("abc".to_string(), Vec::new());
    let step = s.start(Some(&"abc.webm".to_string()));
    assert_eq!(step.events.len(), 1);
    assert!(matches!(step.events[0].status, DownloadStatus::AlreadyExists));
    assert_eq!(
        step.events[0].message.as_deref(),
        Some("http://localhost:15123/video/files/abc.webm")
    );
    assert!(matches!(step.action, SessionAction::Finished { success: true }));
}

#[test]
fn age_restricted_with_cookie_file() {
    // E4: first attempt fails age-restricted, the cookie jar succeeds;
    // the stream holds only checking events and then one completed.
    let creds = vec![Credential::CookieFile("path/to/ck.txt".to_string())];
    let mut s = AcquisitionSession::new("age".to_string(), creds);
    let mut trace: Vec<DownloadProgress> = Vec::new();
    let step = s.start(None);
    trace.extend(step.events);
    let step = s.on_outcome(AttemptOutcome::Failure {
        stderr: "ERROR: Sign in to confirm your age".to_string(),
        status: "exit status: 1".to_string(),
    });
    match &step.action {
        SessionAction::Attempt { credential: Some(Credential::CookieFile(p)) } => {
            assert_eq!(p.as_str(), "path/to/ck.txt");
        }
        _ => panic!("expected a cookie-file retry"),
    }
    assert_eq!(step.events.len(), 2);
    assert_eq!(
        step.events[0].message.as_deref(),
        Some("Trying with cookies.txt file...")
    );
    assert_eq!(
        step.events[1].message.as_deref(),
        Some("Checking video with cookies.txt...")
    );
    trace.extend(step.events);
    let step = s.on_outcome(AttemptOutcome::Success { file_name: "age.webm".to_string() });
    trace.extend(step.events);
    assert!(trace.iter().all(|e| !matches!(e.status, DownloadStatus::Error)));
    assert_eq!(count_terminal(&trace), 1);
    assert!(trace.last().unwrap().status.is_terminal());
}

#[test]
fn browser_retries_walk_in_order() {
    let creds = vec![
        Credential::FromBrowser(Browser::Firefox),
        Credential::FromBrowser(Browser::Chrome),
    ];
    let mut s = AcquisitionSession::new("age".to_string(), creds);
    s.start(None);
    let age = || AttemptOutcome::Failure {
        stderr: "Sign in to confirm your age".to_string(),
        status: "exit status: 1".to_string(),
    };
    let step = s.on_outcome(age());
    assert_eq!(
        step.events[0].message.as_deref(),
        Some("Trying with firefox cookies...")
    );
    assert_eq!(
        step.events[1].message.as_deref(),
        Some("Checking video with firefox cookies...")
    );
    let step = s.on_outcome(AttemptOutcome::Failure {
        stderr: "Failed to decrypt with DPAPI".to_string(),
        status: "exit status: 1".to_string(),
    });
    assert_eq!(
        step.events[0].message.as_deref(),
        Some("Trying with chrome cookies...")
    );
    let step = s.on_outcome(age());
    assert_eq!(step.events.len(), 1);
    assert!(matches!(step.events[0].status, DownloadStatus::Error));
    assert_eq!(
        step.events[0].message.as_deref(),
        Some("Age-restricted video. Please set a valid cookies.txt file in Settings. See the help (?) for instructions.")
    );
    assert!(matches!(step.action, SessionAction::Finished { success: false }));
}

#[test]
fn age_restricted_without_credentials() {
    let mut s = AcquisitionSession::new("age".to_string(), Vec::new());
    s.start(None);
    let step = s.on_outcome(AttemptOutcome::Failure {
        stderr: "This video is age-restricted".to_string(),
        status: "exit status: 1".to_string(),
    });
    assert_eq!(step.events.len(), 1);
    assert!(matches!(step.events[0].status, DownloadStatus::Error));
    assert_eq!(
        step.events[0].message.as_deref(),
        Some("Age-restricted video. No cookies.txt or supported browsers found. Please set a cookies.txt file in Settings.")
    );
}

#[test]
fn plain_failure_surfaces_stderr() {
    let mut s = AcquisitionSession::new("bad".to_string(), Vec::new());
    s.start(None);
    let step = s.on_outcome(AttemptOutcome::Failure {
        stderr: "HTTP Error 404".to_string(),
        status: "exit status: 1".to_string(),
    });
    assert_eq!(step.events.len(), 1);
    assert!(matches!(step.events[0].status, DownloadStatus::Error));
    assert_eq!(step.events[0].message.as_deref(), Some("ERROR: HTTP Error 404"));
}

#[test]
fn empty_stderr_reports_exit_status() {
    let mut s = AcquisitionSession::new("bad".to_string(), Vec::new());
    s.start(None);
    let step = s.on_outcome(AttemptOutcome::Failure {
        stderr: String::new(),
        status: "exit status: 2".to_string(),
    });
    assert_eq!(
        step.events[0].message.as_deref(),
        Some("yt-dlp exited with status: exit status: 2")
    );
}
