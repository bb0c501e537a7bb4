//! The video routes' decisions and the lyrics current-line query.

use ivlyrics_helper::lyrics::current_line;
use ivlyrics_helper::server::decide_video_request;
use ivlyrics_helper::server::status_response;
use ivlyrics_helper::server::validate_video_id;
use ivlyrics_helper::server::RequestDecision;
use ivlyrics_helper::LyricLine;
use ivlyrics_helper::LyricsData;
use ivlyrics_helper::TrackInfo;

#[test]
fn id_validation() {
    assert!(validate_video_id("a"));
    assert!(validate_video_id("abcdefghijklmnopqrst"));
    assert!(!validate_video_id("abcdefghijklmnopqrstu"));
    assert!(!validate_video_id(""));
}

#[test]
fn invalid_id_is_rejected_without_lookup() {
    // E6: an empty id gives a 400-style body with success=false.
    let files = vec!["abc.webm".to_string()];
    match decide_video_request("", &files) {
        RequestDecision::Invalid(resp) => {
            assert!(!resp.success);
            assert!(resp.url.is_none());
            assert_eq!(resp.message.as_deref(), Some("Invalid video ID"));
        }
        _ => panic!("an empty id must be invalid"),
    }
    match decide_video_request("   ", &files) {
        RequestDecision::Invalid(_) => {}
        _ => panic!("a blank id must be invalid"),
    }
    match decide_video_request("abcdefghijklmnopqrstu", &files) {
        RequestDecision::Invalid(_) => {}
        _ => panic!("a 21-character id must be invalid"),
    }
}

#[test]
fn cache_hit_is_json_not_stream() {
    // P2: a cached id answers immediately and never subscribes.
    let files = vec!["abc.webm".to_string()];
    match decide_video_request(" abc ", &files) {
        RequestDecision::CacheHit(resp) => {
            assert!(resp.success);
            assert_eq!(resp.video_id.as_str(), "abc");
            assert_eq!(
                resp.url.as_deref(),
                Some("http://localhost:15123/video/files/abc.webm")
            );
            assert_eq!(resp.message.as_deref(), Some("Video already available"));
        }
        _ => panic!("a cached id must answer immediately"),
    }
}

#[test]
fn cache_miss_subscribes() {
    let files = vec!["zzz.webm".to_string()];
    match decide_video_request("abc", &files) {
        RequestDecision::Subscribe(id) => assert_eq!(id.as_str(), "abc"),
        _ => panic!("a cache miss must subscribe"),
    }
}

#[test]
fn other_extension_still_hits() {
    // the prefix scan is authoritative when the default name is absent
    let files = vec!["abc.mkv".to_string()];
    match decide_video_request("abc", &files) {
        RequestDecision::CacheHit(resp) => {
            assert_eq!(
                resp.url.as_deref(),
                Some("http://localhost:15123/video/files/abc.mkv")
            );
        }
        _ => panic!("a prefixed entry must count as a hit"),
    }
}

#[test]
fn status_reports_cached_video() {
    // E1: a seeded abc.webm answers with its public URL.
    let files = vec!["abc.webm".to_string()];
    let resp = status_response("abc", &files);
    assert!(resp.success);
    assert_eq!(
        resp.url.as_deref(),
        Some("http://localhost:15123/video/files/abc.webm")
    );
    assert_eq!(resp.message.as_deref(), Some("Video available"));
}

#[test]
fn status_reports_missing_video() {
    let resp = status_response("abc", &Vec::new());
    assert!(!resp.success);
    assert!(resp.url.is_none());
    assert_eq!(resp.message.as_deref(), Some("Video not downloaded"));
}

fn lyric(start: i64, end: Option<i64>, text: &str) -> LyricLine {
    LyricLine {
        start_time: start,
        end_time: end,
        text: text.to_string(),
        pron_text: None,
        trans_text: None,
    }
}

fn sample() -> LyricsData {
    LyricsData {
        track: TrackInfo {
            title: "t".to_string(),
            artist: "a".to_string(),
            album: "b".to_string(),
            album_art: None,
            duration: 100,
        },
        lyrics: vec![
            lyric(0, Some(1000), "zero"),
            lyric(2000, Some(3000), "one"),
            lyric(4000, Some(5000), "two"),
        ],
        is_synced: true,
    }
}

#[test]
fn current_line_follows_position() {
    // P6: inside a line, through a gap, and past the last line.
    let data = sample();
    assert_eq!(current_line(&data, 500).unwrap().text.as_str(), "zero");
    assert_eq!(current_line(&data, 1500).unwrap().text.as_str(), "zero");
    assert_eq!(current_line(&data, 2500).unwrap().text.as_str(), "one");
    assert_eq!(current_line(&data, 3500).unwrap().text.as_str(), "one");
    assert_eq!(current_line(&data, 5500).unwrap().text.as_str(), "two");
}

#[test]
fn current_line_edges() {
    let data = sample();
    assert!(current_line(&data, -1).is_none());
    assert_eq!(current_line(&data, 0).unwrap().text.as_str(), "zero");
    let empty = LyricsData { lyrics: Vec::new(), ..sample() };
    assert!(current_line(&empty, 500).is_none());
}

#[test]
fn absent_end_time_counts_as_start() {
    let mut data = sample();
    data.lyrics = vec![lyric(0, None, "zero"), lyric(2000, None, "one")];
    assert_eq!(current_line(&data, 0).unwrap().text.as_str(), "zero");
    assert_eq!(current_line(&data, 100).unwrap().text.as_str(), "zero");
    assert_eq!(current_line(&data, 2000).unwrap().text.as_str(), "one");
}
