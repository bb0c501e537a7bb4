//! Extractor supervision: binary and cache paths, the fixed invocation
//! arguments, and the taxonomy of extractor failures read from stderr.

use vstd::prelude::*;

use crate::credentials::spec_browser_tag;
use crate::credentials::browser_tag;
use crate::credentials::Credential;
use crate::credentials::Platform;
use crate::text::spec_str_contains;
use crate::text::str_contains;

verus! {

/// Locates the extractor binary and the cache directory, and builds the
/// extractor's command lines.
pub struct YtDlpManager {
    pub data_dir: String,
    pub videos_dir: String,
    pub platform: Platform,
}

/// The extractor's release asset name for a platform.
pub open spec fn spec_ytdlp_binary_name(p: Platform) -> Seq<char> {
    match p {
        Platform::Windows => "yt-dlp.exe"@,
        Platform::MacOs => "yt-dlp_macos"@,
        Platform::Linux => "yt-dlp"@,
    }
}

/// The extractor's release asset name for a platform.
pub fn ytdlp_binary_name(p: Platform) -> (r: &'static str)
    ensures
        r@ == spec_ytdlp_binary_name(p),
{
    match p {
        Platform::Windows => "yt-dlp.exe",
        Platform::MacOs => "yt-dlp_macos",
        Platform::Linux => "yt-dlp",
    }
}

impl YtDlpManager {
    /// Builds the manager from the per-user data directory, the cache
    /// directory and the platform.
    pub fn new(data_dir: String, videos_dir: String, platform: Platform) -> (m: YtDlpManager)
        ensures
            m.data_dir == data_dir,
            m.videos_dir == videos_dir,
            m.platform == platform,
    {
        YtDlpManager { data_dir, videos_dir, platform }
    }

    /// Where the extractor binary lives: `yt-dlp.exe` under the data
    /// directory on Windows, `yt-dlp` elsewhere.
    pub fn ytdlp_path(&self) -> (r: String)
        ensures
            r@ == self.data_dir@ + if self.platform == Platform::Windows {
                "/yt-dlp.exe"@
            } else {
                "/yt-dlp"@
            },
    {
        let mut r = self.data_dir.clone();
        match self.platform {
            Platform::Windows => {
                r.append("/yt-dlp.exe");
            },
            _ => {
                r.append("/yt-dlp");
            },
        }
        r
    }

    /// The cache directory.
    pub fn videos_dir(&self) -> (r: String)
        ensures
            r@ == self.videos_dir@,
    {
        self.videos_dir.clone()
    }

    /// The default cache path for a video id: `<videos>/<id>.webm`.
    pub fn video_path(&self, video_id: &str) -> (r: String)
        ensures
            r@ == self.videos_dir@ + "/"@ + video_id@ + ".webm"@,
    {
        let mut r = self.videos_dir.clone();
        r.append("/");
        r.append(video_id);
        r.append(".webm");
        r
    }

    /// The extractor's output template: `<videos>/%(id)s.%(ext)s`.
    pub fn output_template(&self) -> (r: String)
        ensures
            r@ == self.videos_dir@ + "/%(id)s.%(ext)s"@,
    {
        let mut r = self.videos_dir.clone();
        r.append("/%(id)s.%(ext)s");
        r
    }
}

/// The extractor refused the video pending age confirmation, or asked
/// for browser cookies.
pub open spec fn spec_is_age_restriction_error(msg: Seq<char>) -> bool {
    spec_str_contains(msg, "Sign in to confirm your age"@) || spec_str_contains(
        msg,
        "age-restricted"@,
    ) || spec_str_contains(msg, "confirm your age"@) || spec_str_contains(
        msg,
        "inappropriate for some users"@,
    ) || spec_str_contains(msg, "--cookies-from-browser"@)
}

/// Whether stderr text signals age restriction.
pub fn is_age_restriction_error(msg: &str) -> (r: bool)
    ensures
        r == spec_is_age_restriction_error(msg@),
{
    str_contains(msg, "Sign in to confirm your age") || str_contains(msg, "age-restricted")
        || str_contains(msg, "confirm your age") || str_contains(
        msg,
        "inappropriate for some users",
    ) || str_contains(msg, "--cookies-from-browser")
}

/// A browser cookie store could not be decrypted (Windows Chromium
/// family).
pub open spec fn spec_is_dpapi_error(msg: Seq<char>) -> bool {
    spec_str_contains(msg, "Failed to decrypt with DPAPI"@) || spec_str_contains(
        msg,
        "failed to decrypt"@,
    ) || spec_str_contains(msg, "DPAPI"@)
}

/// Whether stderr text signals a cookie-decryption failure.
pub fn is_dpapi_error(msg: &str) -> (r: bool)
    ensures
        r == spec_is_dpapi_error(msg@),
{
    str_contains(msg, "Failed to decrypt with DPAPI") || str_contains(msg, "failed to decrypt")
        || str_contains(msg, "DPAPI")
}

/// The browser's cookie database could not be copied.
pub open spec fn spec_is_cookie_db_error(msg: Seq<char>) -> bool {
    spec_str_contains(msg, "Could not copy Chrome cookie database"@) || spec_str_contains(
        msg,
        "could not copy"@,
    ) || spec_str_contains(msg, "cookie database"@)
}

/// Whether stderr text signals a cookie-database copy failure.
pub fn is_cookie_db_error(msg: &str) -> (r: bool)
    ensures
        r == spec_is_cookie_db_error(msg@),
{
    str_contains(msg, "Could not copy Chrome cookie database") || str_contains(
        msg,
        "could not copy",
    ) || str_contains(msg, "cookie database")
}

/// The fixed leading arguments of every extractor invocation: format
/// selection capped at 1080p, no playlists, machine-readable progress,
/// the web player client, and restricted filenames.
pub open spec fn spec_base_args() -> Seq<Seq<char>> {
    seq![
        "-f"@,
        "bestvideo[height<=1080][ext=webm]/bestvideo[height<=1080]/bestvideo[ext=webm]/bestvideo"@,
        "--no-playlist"@,
        "--progress"@,
        "--newline"@,
        "--extractor-args"@,
        "youtube:player_client=web"@,
        "--restrict-filenames"@,
    ]
}

/// The credential arguments: a cookie jar wins over a browser store.
pub open spec fn spec_credential_args(c: Option<Credential>) -> Seq<Seq<char>> {
    match c {
        Some(Credential::CookieFile(path)) => seq!["--cookies"@, path@],
        Some(Credential::FromBrowser(b)) => seq!["--cookies-from-browser"@, spec_browser_tag(b)],
        None => Seq::empty(),
    }
}

/// The watch URL handed to the extractor.
pub open spec fn spec_watch_url(video_id: Seq<char>) -> Seq<char> {
    "https://www.youtube.com/watch?v="@ + video_id
}

/// The full argument vector of one extractor invocation.
pub open spec fn spec_download_args(
    videos_dir: Seq<char>,
    video_id: Seq<char>,
    c: Option<Credential>,
) -> Seq<Seq<char>> {
    spec_base_args() + spec_credential_args(c) + seq![
        "-o"@,
        videos_dir + "/%(id)s.%(ext)s"@,
        spec_watch_url(video_id),
    ]
}

impl YtDlpManager {
    /// Builds the argument vector for one extraction attempt with the
    /// given credential.
    pub fn build_download_args(&self, video_id: &str, credential: &Option<Credential>) -> (r: Vec<
        String,
    >)
        ensures
            r@.map_values(|s: String| s@) == spec_download_args(
                self.videos_dir@,
                video_id@,
                *credential,
            ),
    {
        let mut r: Vec<String> = Vec::new();
        r.push(String::from_str("-f"));
        r.push(
            String::from_str(
                "bestvideo[height<=1080][ext=webm]/bestvideo[height<=1080]/bestvideo[ext=webm]/bestvideo",
            ),
        );
        r.push(String::from_str("--no-playlist"));
        r.push(String::from_str("--progress"));
        r.push(String::from_str("--newline"));
        r.push(String::from_str("--extractor-args"));
        r.push(String::from_str("youtube:player_client=web"));
        r.push(String::from_str("--restrict-filenames"));
        match credential {
            Some(Credential::CookieFile(path)) => {
                r.push(String::from_str("--cookies"));
                r.push(path.clone());
            },
            Some(Credential::FromBrowser(b)) => {
                r.push(String::from_str("--cookies-from-browser"));
                r.push(String::from_str(browser_tag(*b)));
            },
            None => {},
        }
        r.push(String::from_str("-o"));
        r.push(self.output_template());
        let mut url = String::from_str("https://www.youtube.com/watch?v=");
        url.append(video_id);
        r.push(url);
        proof {
            assert(r@.map_values(|s: String| s@) =~= spec_download_args(
                self.videos_dir@,
                video_id@,
                *credential,
            ));
        }
        r
    }
}

/// The diagnostic for a failed extractor run: the collected stderr when
/// there is any, else the exit status.
pub fn failure_message(stderr: &str, status_text: &str) -> (r: String)
    ensures
        r@ == if stderr@.len() > 0 {
            "ERROR: "@ + stderr@
        } else {
            "yt-dlp exited with status: "@ + status_text@
        },
{
    if stderr.unicode_len() > 0 {
        let mut r = String::from_str("ERROR: ");
        r.append(stderr);
        r
    } else {
        let mut r = String::from_str("yt-dlp exited with status: ");
        r.append(status_text);
        r
    }
}

} // verus!
