//! Progress events broadcast during an acquisition, and their wire names.

use vstd::prelude::*;

use crate::text::spec_dec_digits;
use crate::text::u64_to_dec;

verus! {

/// Stage of an acquisition. `Completed`, `Error` and `AlreadyExists` are
/// terminal.
#[derive(Clone, Copy, Debug, PartialEq, Eq, Structural)]
pub enum DownloadStatus {
    Checking,
    Downloading,
    Processing,
    Completed,
    Error,
    AlreadyExists,
}

/// Whether a status ends the event stream of an acquisition.
pub open spec fn spec_is_terminal(s: DownloadStatus) -> bool {
    s == DownloadStatus::Completed || s == DownloadStatus::Error
        || s == DownloadStatus::AlreadyExists
}

impl DownloadStatus {
    /// Whether this status ends the event stream of an acquisition.
    pub fn is_terminal(&self) -> (b: bool)
        ensures
            b == spec_is_terminal(*self),
    {
        match self {
            DownloadStatus::Completed => true,
            DownloadStatus::Error => true,
            DownloadStatus::AlreadyExists => true,
            _ => false,
        }
    }

    /// The status tag used on the wire.
    pub fn wire_name(&self) -> (r: &'static str)
        ensures
            r@ == spec_wire_name(*self),
    {
        match self {
            DownloadStatus::Checking => "checking",
            DownloadStatus::Downloading => "downloading",
            DownloadStatus::Processing => "processing",
            DownloadStatus::Completed => "completed",
            DownloadStatus::Error => "error",
            DownloadStatus::AlreadyExists => "already-exists",
        }
    }

    /// The SSE event name carrying this status: `complete` for a terminal
    /// status, `progress` otherwise.
    pub fn event_label(&self) -> (r: &'static str)
        ensures
            r@ == if spec_is_terminal(*self) {
                "complete"@
            } else {
                "progress"@
            },
    {
        if self.is_terminal() {
            "complete"
        } else {
            "progress"
        }
    }
}

/// The status tag used on the wire.
pub open spec fn spec_wire_name(s: DownloadStatus) -> Seq<char> {
    match s {
        DownloadStatus::Checking => "checking"@,
        DownloadStatus::Downloading => "downloading"@,
        DownloadStatus::Processing => "processing"@,
        DownloadStatus::Completed => "completed"@,
        DownloadStatus::Error => "error"@,
        DownloadStatus::AlreadyExists => "already-exists"@,
    }
}

/// One progress event. `percent_tenths` is the advertised completion in
/// tenths of a percent (0 ..= 1000); `speed` and `eta` are opaque strings
/// from the extractor; `message` carries a human status line, the final
/// URL, or an error description.
#[derive(Clone, Debug)]
pub struct DownloadProgress {
    pub video_id: String,
    pub status: DownloadStatus,
    pub percent_tenths: Option<u32>,
    pub speed: Option<String>,
    pub eta: Option<String>,
    pub message: Option<String>,
}

fn clone_opt_string(o: &Option<String>) -> (r: Option<String>)
    ensures
        r == *o,
{
    match o {
        Some(s) => Some(s.clone()),
        None => None,
    }
}

impl DownloadProgress {
    /// A field-by-field copy, equal to the original.
    pub fn duplicate(&self) -> (e: DownloadProgress)
        ensures
            e == *self,
    {
        DownloadProgress {
            video_id: self.video_id.clone(),
            status: self.status,
            percent_tenths: self.percent_tenths,
            speed: clone_opt_string(&self.speed),
            eta: clone_opt_string(&self.eta),
            message: clone_opt_string(&self.message),
        }
    }
}

/// The human line shown while downloading, e.g. `Downloading: 25.5%`.
pub open spec fn spec_downloading_message(tenths: u32) -> Seq<char> {
    "Downloading: "@ + spec_dec_digits((tenths / 10) as nat) + "."@ + spec_dec_digits(
        (tenths % 10) as nat,
    ) + "%"@
}

/// Formats the percentage message for a `downloading` event.
pub fn downloading_message(tenths: u32) -> (r: String)
    ensures
        r@ == spec_downloading_message(tenths),
{
    let mut r = String::from_str("Downloading: ");
    let whole = u64_to_dec((tenths / 10) as u64);
    r.append(whole.as_str());
    r.append(".");
    let frac = u64_to_dec((tenths % 10) as u64);
    r.append(frac.as_str());
    r.append("%");
    r
}

/// A `checking` event at zero percent with the given message.
pub fn checking_event(video_id: String, message: String) -> (e: DownloadProgress)
    ensures
        e.video_id == video_id,
        e.status == DownloadStatus::Checking,
        e.percent_tenths == Some(0u32),
        e.speed is None,
        e.eta is None,
        e.message == Some(message),
{
    DownloadProgress {
        video_id,
        status: DownloadStatus::Checking,
        percent_tenths: Some(0),
        speed: None,
        eta: None,
        message: Some(message),
    }
}

/// A `downloading` event with the parsed percentage, speed and ETA.
pub fn downloading_event(video_id: String, tenths: u32, speed: String, eta: String) -> (e:
    DownloadProgress)
    ensures
        e.video_id == video_id,
        e.status == DownloadStatus::Downloading,
        e.percent_tenths == Some(tenths),
        e.speed == Some(speed),
        e.eta == Some(eta),
        e.message is Some,
        e.message->0@ == spec_downloading_message(tenths),
{
    let message = downloading_message(tenths);
    DownloadProgress {
        video_id,
        status: DownloadStatus::Downloading,
        percent_tenths: Some(tenths),
        speed: Some(speed),
        eta: Some(eta),
        message: Some(message),
    }
}

/// A `processing` event, fixed at 99 percent.
pub fn processing_event(video_id: String) -> (e: DownloadProgress)
    ensures
        e.video_id == video_id,
        e.status == DownloadStatus::Processing,
        e.percent_tenths == Some(990u32),
        e.speed is None,
        e.eta is None,
        e.message is Some,
        e.message->0@ == "Processing..."@,
{
    DownloadProgress {
        video_id,
        status: DownloadStatus::Processing,
        percent_tenths: Some(990),
        speed: None,
        eta: None,
        message: Some(String::from_str("Processing...")),
    }
}

/// The terminal `completed` event; `url` is the public URL of the cached
/// file.
pub fn completed_event(video_id: String, url: String) -> (e: DownloadProgress)
    ensures
        e.video_id == video_id,
        e.status == DownloadStatus::Completed,
        e.percent_tenths == Some(1000u32),
        e.speed is None,
        e.eta is None,
        e.message == Some(url),
{
    DownloadProgress {
        video_id,
        status: DownloadStatus::Completed,
        percent_tenths: Some(1000),
        speed: None,
        eta: None,
        message: Some(url),
    }
}

/// The terminal `error` event with a diagnostic message.
pub fn error_event(video_id: String, message: String) -> (e: DownloadProgress)
    ensures
        e.video_id == video_id,
        e.status == DownloadStatus::Error,
        e.percent_tenths is None,
        e.speed is None,
        e.eta is None,
        e.message == Some(message),
{
    DownloadProgress {
        video_id,
        status: DownloadStatus::Error,
        percent_tenths: None,
        speed: None,
        eta: None,
        message: Some(message),
    }
}

/// The terminal event for a video that was already on disk; `url` is the
/// public URL of the cached file.
pub fn already_exists_event(video_id: String, url: String) -> (e: DownloadProgress)
    ensures
        e.video_id == video_id,
        e.status == DownloadStatus::AlreadyExists,
        e.percent_tenths == Some(1000u32),
        e.speed is None,
        e.eta is None,
        e.message == Some(url),
{
    DownloadProgress {
        video_id,
        status: DownloadStatus::AlreadyExists,
        percent_tenths: Some(1000),
        speed: None,
        eta: None,
        message: Some(url),
    }
}

} // verus!
