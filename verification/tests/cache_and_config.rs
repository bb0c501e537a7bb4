//! Cache accounting, prune planning, and configuration resolution.

use ivlyrics_helper::cache::default_file_name;
use ivlyrics_helper::cache::file_url;
use ivlyrics_helper::cache::find_cache_entry;
use ivlyrics_helper::cache::plan_prune;
use ivlyrics_helper::cache::usage;
use ivlyrics_helper::cache::CacheFile;
use ivlyrics_helper::AppConfig;
use ivlyrics_helper::ConfigManager;
use ivlyrics_helper::default_language;
use ivlyrics_helper::default_max_cache;

const GIB: u64 = 1024 * 1024 * 1024;
const MIB: u64 = 1024 * 1024;

fn f(name: &str, mtime: u64, size: u64) -> CacheFile {
    CacheFile { name: name.to_string(), mtime, size }
}

#[test]
fn usage_sums_sizes() {
    let files = vec![f("a", 1, 100), f("b", 2, 250)];
    assert_eq!(usage(&files), 350);
    assert_eq!(usage(&Vec::new()), 0);
}

#[test]
fn pruning_deletes_oldest_until_bound() {
    // E5: 1.2 GiB on disk, a 100 MiB completion, bound 1 GiB.
    let files = vec![
        f("old1.webm", 10, 600 * MIB),
        f("old2.webm", 20, 600 * MIB),
        f("fresh.webm", 100, 100 * MIB),
    ];
    let plan = plan_prune(&files, GIB);
    assert_eq!(plan.len(), 1);
    assert_eq!(plan[0].name.as_str(), "old1.webm");
    let remaining = usage(&files) - plan.iter().map(|c| c.size).sum::<u64>();
    assert!(remaining <= GIB);
    // the freshest file is never in the plan
    assert!(plan.iter().all(|c| c.name != "fresh.webm"));
}

#[test]
fn pruning_is_oldest_first_and_minimal() {
    let files = vec![f("c", 30, 10), f("a", 10, 10), f("b", 20, 10)];
    let plan = plan_prune(&files, 15);
    assert_eq!(plan.len(), 2);
    assert_eq!(plan[0].name.as_str(), "a");
    assert_eq!(plan[1].name.as_str(), "b");
}

#[test]
fn oversized_youngest_file_is_still_evicted() {
    // the one input the youngest-survives law leaves out: a fresh file
    // that alone exceeds the bound goes too, since the bound wins
    let files = vec![f("old.webm", 10, 100 * MIB), f("huge.webm", 100, 2 * GIB)];
    let plan = plan_prune(&files, GIB);
    assert_eq!(plan.len(), 2);
    assert_eq!(plan[1].name.as_str(), "huge.webm");
}

#[test]
fn zero_bound_means_unbounded() {
    let files = vec![f("a", 1, u64::MAX / 2)];
    assert!(plan_prune(&files, 0).is_empty());
}

#[test]
fn bound_already_met_deletes_nothing() {
    let files = vec![f("a", 1, 100)];
    assert!(plan_prune(&files, 100).is_empty());
}

#[test]
fn cache_entry_prefix_scan() {
    let files = vec!["zzz.mp4".to_string(), "abc.mkv".to_string(), "abc.webm".to_string()];
    assert_eq!(find_cache_entry("abc", &files).unwrap().as_str(), "abc.mkv");
    assert!(find_cache_entry("missing", &files).is_none());
}

#[test]
fn names_and_urls() {
    assert_eq!(default_file_name("abc").as_str(), "abc.webm");
    assert_eq!(
        file_url("abc.webm").as_str(),
        "http://localhost:15123/video/files/abc.webm"
    );
}

#[test]
fn config_defaults() {
    assert_eq!(default_max_cache(), 10);
    assert_eq!(default_language().as_str(), "en");
    let c = AppConfig::default();
    assert_eq!(c.maxCacheGB, 10);
    assert!(!c.setupComplete);
    assert_eq!(c.videoFolder.as_str(), "");
    assert_eq!(c.language.as_str(), "en");
    assert_eq!(c.cookiesFile.as_str(), "");
}

#[test]
fn max_cache_bytes_formula() {
    let mut c = AppConfig::default();
    assert_eq!(c.max_cache_bytes(), 10 * GIB);
    c.maxCacheGB = 1;
    assert_eq!(c.max_cache_bytes(), GIB);
    c.maxCacheGB = 0;
    assert_eq!(c.max_cache_bytes(), 0);
}

#[test]
fn config_manager_defaults_video_folder() {
    let m = ConfigManager::new("/data/ivLyrics-helper".to_string(), None);
    assert_eq!(m.get_config().videoFolder.as_str(), "/data/ivLyrics-helper/videos");
    assert_eq!(m.get_video_folder().as_str(), "/data/ivLyrics-helper/videos");
    assert_eq!(m.get_default_video_folder().as_str(), "/data/ivLyrics-helper/videos");
    assert_eq!(m.config_path().as_str(), "/data/ivLyrics-helper/config.json");
}

#[test]
fn config_manager_keeps_loaded_folder() {
    let mut loaded = AppConfig::default();
    loaded.videoFolder = "/somewhere/else".to_string();
    let m = ConfigManager::new("/data/ivLyrics-helper".to_string(), Some(loaded));
    assert_eq!(m.get_video_folder().as_str(), "/somewhere/else");
}

#[test]
fn config_manager_falls_back_when_folder_empty() {
    let loaded = AppConfig::default();
    let mut m = ConfigManager::new("/data/ivLyrics-helper".to_string(), Some(loaded));
    assert_eq!(m.get_video_folder().as_str(), "/data/ivLyrics-helper/videos");
    let mut updated = AppConfig::default();
    updated.maxCacheGB = 3;
    m.save_config(&updated);
    assert_eq!(m.get_config().maxCacheGB, 3);
}
