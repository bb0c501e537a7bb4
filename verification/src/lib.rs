//! Verified core of a local video-cache helper daemon: cache bookkeeping,
//! download coordination, credential ordering, extractor output parsing,
//! and the lyrics relay's current-line query.

pub mod autostart;
pub mod cache;
pub mod config;
pub mod credentials;
pub mod events;
pub mod lyrics;
pub mod parse;
pub mod probes;
pub mod provision;
pub mod registry;
pub mod seqx;
pub mod server;
pub mod session;
pub mod text;
pub mod ytdlp;

pub use autostart::set_autostart;
pub use config::AppConfig;
pub use config::ConfigManager;
pub use config::default_language;
pub use config::default_max_cache;
pub use events::DownloadProgress;
pub use events::DownloadStatus;
pub use lyrics::LyricLine;
pub use lyrics::LyricsData;
pub use lyrics::NextTrackInfo;
pub use lyrics::TrackInfo;
pub use provision::normalize_version;
pub use provision::select_asset;
pub use registry::DownloadCoordinator;
pub use ytdlp::YtDlpManager;
