//! Text primitives and the extractor progress-line parser.

use ivlyrics_helper::parse::is_processing_line;
use ivlyrics_helper::parse::parse_download_line;
use ivlyrics_helper::text::str_contains;
use ivlyrics_helper::text::str_ends_with;
use ivlyrics_helper::text::str_eq;
use ivlyrics_helper::text::str_starts_with;
use ivlyrics_helper::text::trim_spaces;
use ivlyrics_helper::text::u64_to_dec;

#[test]
fn contains_finds_inner_needle() {
    assert!(str_contains("Sign in to confirm your age", "confirm your age"));
    assert!(str_contains("abc", ""));
    assert!(!str_contains("abc", "abcd"));
    assert!(!str_contains("DPAPI", "dpapi"));
}

#[test]
fn starts_and_ends() {
    assert!(str_starts_with("abc.webm", "abc"));
    assert!(!str_starts_with("xabc.webm", "abc"));
    assert!(str_ends_with("setup.exe", ".exe"));
    assert!(!str_ends_with("exe", "setup.exe"));
}

#[test]
fn string_equality() {
    assert!(str_eq("abc", "abc"));
    assert!(!str_eq("abc", "abd"));
    assert!(!str_eq("abc", "ab"));
}

#[test]
fn trimming() {
    assert_eq!(trim_spaces("  abc\t"), "abc");
    assert_eq!(trim_spaces("abc"), "abc");
    assert_eq!(trim_spaces("   "), "");
    assert_eq!(trim_spaces(""), "");
}

#[test]
fn decimal_formatting() {
    assert_eq!(u64_to_dec(0).as_str(), "0");
    assert_eq!(u64_to_dec(7).as_str(), "7");
    assert_eq!(u64_to_dec(1234567890).as_str(), "1234567890");
}

#[test]
fn download_line_parses() {
    let p = parse_download_line("[download]  25.0% of 10.00MiB at 1.00MiB/s ETA 00:10").unwrap();
    assert_eq!(p.percent_tenths, 250);
    assert_eq!(p.speed.as_str(), "1.00MiB/s");
    assert_eq!(p.eta.as_str(), "00:10");
}

#[test]
fn download_line_keeps_one_fraction_digit() {
    let p = parse_download_line("[download]  25.5% of 4.32MiB at 512.00KiB/s ETA 00:03").unwrap();
    assert_eq!(p.percent_tenths, 255);
    assert_eq!(p.speed.as_str(), "512.00KiB/s");
    assert_eq!(p.eta.as_str(), "00:03");
}

#[test]
fn download_line_without_fraction() {
    let p = parse_download_line("[download] 100% of 10.00MiB at 2.00MiB/s ETA 00:00").unwrap();
    assert_eq!(p.percent_tenths, 1000);
}

#[test]
fn non_progress_lines_are_rejected() {
    assert!(parse_download_line("[download] Destination: videos/abc.webm").is_none());
    assert!(parse_download_line("[youtube] abc: Downloading webpage").is_none());
    assert!(parse_download_line("").is_none());
    assert!(parse_download_line("[download] 25.0% of 10MiB at fast ETA soon").is_none());
}

#[test]
fn processing_lines_are_recognised() {
    assert!(is_processing_line("[Merger] Merging formats into \"abc.webm\""));
    assert!(is_processing_line("[ExtractAudio] Destination: abc.opus"));
    assert!(is_processing_line("Deleting original file abc.f616.webm"));
    assert!(!is_processing_line("[download] 10.0% of x at y/s ETA z"));
}
