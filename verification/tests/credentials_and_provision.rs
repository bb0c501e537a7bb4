//! Credential ordering, error taxonomy, extractor arguments, release
//! assets and autostart planning.

use ivlyrics_helper::autostart::set_autostart;
use ivlyrics_helper::autostart::AutostartAction;
use ivlyrics_helper::credentials::browser_tag;
use ivlyrics_helper::credentials::order_browsers;
use ivlyrics_helper::credentials::ordered_credentials;
use ivlyrics_helper::credentials::Browser;
use ivlyrics_helper::credentials::Credential;
use ivlyrics_helper::credentials::Platform;
use ivlyrics_helper::events::downloading_message;
use ivlyrics_helper::normalize_version;
use ivlyrics_helper::probes::linux_browser_probes;
use ivlyrics_helper::probes::macos_browser_probes;
use ivlyrics_helper::probes::windows_browser_probes;
use ivlyrics_helper::provision::select_ytdlp_download_url;
use ivlyrics_helper::provision::UpdateAsset;
use ivlyrics_helper::select_asset;
use ivlyrics_helper::ytdlp::failure_message;
use ivlyrics_helper::ytdlp::is_age_restriction_error;
use ivlyrics_helper::ytdlp::is_cookie_db_error;
use ivlyrics_helper::ytdlp::is_dpapi_error;
use ivlyrics_helper::ytdlp::ytdlp_binary_name;
use ivlyrics_helper::YtDlpManager;

#[test]
fn windows_priority_demotes_chromium_family() {
    let detected = vec![Browser::Chrome, Browser::Edge, Browser::Firefox, Browser::Whale];
    let ordered = order_browsers(Platform::Windows, &detected);
    let tags: Vec<&str> = ordered.iter().map(|b| browser_tag(*b)).collect();
    assert_eq!(tags, vec!["firefox", "whale", "chrome", "edge"]);
}

#[test]
fn macos_priority_order() {
    let detected = vec![Browser::Safari, Browser::Firefox, Browser::Chrome];
    let ordered = order_browsers(Platform::MacOs, &detected);
    let tags: Vec<&str> = ordered.iter().map(|b| browser_tag(*b)).collect();
    assert_eq!(tags, vec!["chrome", "firefox", "safari"]);
}

#[test]
fn cookie_file_comes_first() {
    // P4: cookie jar, then the browsers in their given order.
    let browsers = vec![Browser::Firefox, Browser::Chrome];
    let creds = ordered_credentials(Some("/data/ck.txt".to_string()), &browsers);
    assert_eq!(creds.len(), 3);
    match &creds[0] {
        Credential::CookieFile(p) => assert_eq!(p.as_str(), "/data/ck.txt"),
        _ => panic!("the cookie jar must come first"),
    }
    assert!(matches!(creds[1], Credential::FromBrowser(Browser::Firefox)));
    assert!(matches!(creds[2], Credential::FromBrowser(Browser::Chrome)));
}

#[test]
fn no_cookie_file_starts_with_browsers() {
    let browsers = vec![Browser::Chrome];
    let creds = ordered_credentials(None, &browsers);
    assert_eq!(creds.len(), 1);
    assert!(matches!(creds[0], Credential::FromBrowser(Browser::Chrome)));
}

#[test]
fn error_taxonomy() {
    assert!(is_age_restriction_error("ERROR: Sign in to confirm your age"));
    assert!(is_age_restriction_error("video is age-restricted"));
    assert!(is_age_restriction_error("use --cookies-from-browser to retry"));
    assert!(!is_age_restriction_error("HTTP Error 404"));
    assert!(is_dpapi_error("Failed to decrypt with DPAPI"));
    assert!(!is_dpapi_error("nothing here"));
    assert!(is_cookie_db_error("Could not copy Chrome cookie database"));
    assert!(!is_cookie_db_error("nothing here"));
}

#[test]
fn failure_message_prefers_stderr() {
    assert_eq!(failure_message("boom", "exit status: 1").as_str(), "ERROR: boom");
    assert_eq!(
        failure_message("", "exit status: 1").as_str(),
        "yt-dlp exited with status: exit status: 1"
    );
}

#[test]
fn download_args_without_credential() {
    let m = YtDlpManager::new("/d".to_string(), "/v".to_string(), Platform::Linux);
    let args = m.build_download_args("abc", &None);
    let expect = vec![
        "-f",
        "bestvideo[height<=1080][ext=webm]/bestvideo[height<=1080]/bestvideo[ext=webm]/bestvideo",
        "--no-playlist",
        "--progress",
        "--newline",
        "--extractor-args",
        "youtube:player_client=web",
        "--restrict-filenames",
        "-o",
        "/v/%(id)s.%(ext)s",
        "https://www.youtube.com/watch?v=abc",
    ];
    let got: Vec<&str> = args.iter().map(|s| s.as_str()).collect();
    assert_eq!(got, expect);
}

#[test]
fn download_args_with_cookie_file() {
    // E4: the retry runs with `--cookies path/to/ck.txt`.
    let m = YtDlpManager::new("/d".to_string(), "/v".to_string(), Platform::Linux);
    let cred = Some(Credential::CookieFile("path/to/ck.txt".to_string()));
    let args = m.build_download_args("abc", &cred);
    let got: Vec<&str> = args.iter().map(|s| s.as_str()).collect();
    assert_eq!(got[8], "--cookies");
    assert_eq!(got[9], "path/to/ck.txt");
    assert_eq!(got[10], "-o");
}

#[test]
fn download_args_with_browser() {
    let m = YtDlpManager::new("/d".to_string(), "/v".to_string(), Platform::Windows);
    let cred = Some(Credential::FromBrowser(Browser::Firefox));
    let args = m.build_download_args("abc", &cred);
    let got: Vec<&str> = args.iter().map(|s| s.as_str()).collect();
    assert_eq!(got[8], "--cookies-from-browser");
    assert_eq!(got[9], "firefox");
}

#[test]
fn manager_paths() {
    let w = YtDlpManager::new("/d".to_string(), "/v".to_string(), Platform::Windows);
    assert_eq!(w.ytdlp_path().as_str(), "/d/yt-dlp.exe");
    let l = YtDlpManager::new("/d".to_string(), "/v".to_string(), Platform::Linux);
    assert_eq!(l.ytdlp_path().as_str(), "/d/yt-dlp");
    assert_eq!(l.videos_dir().as_str(), "/v");
    assert_eq!(l.video_path("abc").as_str(), "/v/abc.webm");
    assert_eq!(l.output_template().as_str(), "/v/%(id)s.%(ext)s");
}

#[test]
fn binary_names() {
    assert_eq!(ytdlp_binary_name(Platform::Windows), "yt-dlp.exe");
    assert_eq!(ytdlp_binary_name(Platform::MacOs), "yt-dlp_macos");
    assert_eq!(ytdlp_binary_name(Platform::Linux), "yt-dlp");
}

#[test]
fn release_feed_yields_download_url() {
    let body = br#"{"assets":[
        {"name":"yt-dlp.exe","browser_download_url":"https://host/exe"},
        {"name":"yt-dlp","browser_download_url":"https://host/linux"}
    ]}"#
        .to_vec();
    let url = select_ytdlp_download_url(&body, Platform::Linux);
    assert_eq!(url.as_deref(), Some("https://host/linux"));
    let url = select_ytdlp_download_url(&body, Platform::Windows);
    assert_eq!(url.as_deref(), Some("https://host/exe"));
    assert!(select_ytdlp_download_url(&body, Platform::MacOs).is_none());
}

#[test]
fn bad_release_feed_yields_nothing() {
    assert!(select_ytdlp_download_url(&b"not json".to_vec(), Platform::Linux).is_none());
    assert!(select_ytdlp_download_url(&b"{\"assets\":7}".to_vec(), Platform::Linux).is_none());
}

#[test]
fn version_normalisation() {
    assert_eq!(normalize_version("v1.2.3").as_str(), "1.2.3");
    assert_eq!(normalize_version("1.0.0").as_str(), "1.0.0");
    assert_eq!(normalize_version("vv2").as_str(), "2");
    assert_eq!(normalize_version("").as_str(), "");
}

fn asset(name: &str) -> UpdateAsset {
    UpdateAsset { name: name.to_string(), url: format!("https://host/{}", name) }
}

#[test]
fn installer_selection_prefers_platform_suffix() {
    let assets = vec![asset("app.zip"), asset("app.msi"), asset("app.exe")];
    let picked = select_asset(&assets, Platform::Windows).unwrap();
    assert_eq!(picked.name.as_str(), "app.exe");
    let picked = select_asset(&assets, Platform::MacOs).unwrap();
    assert_eq!(picked.name.as_str(), "app.zip");
}

#[test]
fn installer_selection_falls_back_to_first() {
    let assets = vec![asset("app.pkg"), asset("app.deb")];
    let picked = select_asset(&assets, Platform::Linux).unwrap();
    assert_eq!(picked.name.as_str(), "app.pkg");
    assert!(select_asset(&Vec::new(), Platform::Linux).is_none());
}

#[test]
fn autostart_planning() {
    match set_autostart(true, Platform::Windows, "C:\\Users\\u\\AppData\\Roaming", "C:\\app \"x\".exe") {
        Ok(AutostartAction::WriteScript { path, contents }) => {
            assert_eq!(
                path.as_str(),
                "C:\\Users\\u\\AppData\\Roaming\\Microsoft\\Windows\\Start Menu\\Programs\\Startup\\ivLyrics-helper-start.bat"
            );
            assert_eq!(
                contents.as_str(),
                "@echo off\r\nstart \"\" \"C:\\app \"\"x\"\".exe\"\r\n"
            );
        }
        _ => panic!("enabling on Windows must write the script"),
    }
    assert!(matches!(
        set_autostart(false, Platform::Windows, "/r", "/e"),
        Ok(AutostartAction::RemoveScript { .. })
    ));
    match set_autostart(true, Platform::Linux, "/r", "/e") {
        Err(m) => assert_eq!(m.as_str(), "Autostart is only supported on Windows in this build"),
        _ => panic!("enabling off Windows must be refused"),
    }
    assert!(matches!(
        set_autostart(false, Platform::Linux, "/r", "/e"),
        Ok(AutostartAction::Nothing)
    ));
}

#[test]
fn probe_tables_cover_known_browsers() {
    let w = windows_browser_probes();
    assert_eq!(w.len(), 7);
    assert!(matches!(w[0].browser, Browser::Chrome));
    assert!(w.iter().all(|p| !p.system_paths.is_empty()));
    assert_eq!(
        w[0].system_paths[0].as_str(),
        "C:\\Program Files\\Google\\Chrome\\Application\\chrome.exe"
    );
    assert_eq!(
        w[2].system_paths[0].as_str(),
        "C:\\Program Files\\Mozilla Firefox\\firefox.exe"
    );
    let m = macos_browser_probes();
    assert_eq!(m.len(), 8);
    assert!(matches!(m[7].browser, Browser::Safari));
    assert_eq!(m[7].bundle_paths[0].as_str(), "/Applications/Safari.app");
    let l = linux_browser_probes();
    assert_eq!(l.len(), 7);
    assert!(matches!(l[1].browser, Browser::Chromium));
    assert_eq!(l[3].commands[0].as_str(), "firefox");
}

#[test]
fn downloading_message_format() {
    assert_eq!(downloading_message(255).as_str(), "Downloading: 25.5%");
    assert_eq!(downloading_message(1000).as_str(), "Downloading: 100.0%");
    assert_eq!(downloading_message(0).as_str(), "Downloading: 0.0%");
}
