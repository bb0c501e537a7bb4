//! The video routes' decision logic: id validation, the pre-dispatch
//! cache check, and the JSON response bodies.

use vstd::prelude::*;

use crate::cache::default_file_name;
use crate::cache::file_url;
use crate::cache::find_cache_entry;
use crate::cache::spec_file_url;
use crate::cache::spec_has_file;
use crate::cache::video_exists;
use crate::text::spec_starts_with;
use crate::text::spec_trimmed;
use crate::text::trim_spaces;

verus! {

/// The JSON body of every video-route response.
#[derive(Clone, Debug)]
pub struct VideoResponse {
    pub success: bool,
    pub video_id: String,
    pub url: Option<String>,
    pub message: Option<String>,
}

/// A video id is serviceable when, after trimming, it is non-empty and
/// at most 20 characters.
pub open spec fn spec_valid_id(id: Seq<char>) -> bool {
    1 <= id.len() <= 20
}

/// Whether the (already trimmed) id is non-empty and at most 20
/// characters.
pub fn validate_video_id(id: &str) -> (r: bool)
    ensures
        r == spec_valid_id(id@),
{
    let n = id.unicode_len();
    1 <= n && n <= 20
}

/// The cache entry serving `id`: the default `<id>.webm` when present
/// (fast path), else the first file whose name begins with the id (the
/// authoritative scan), else nothing.
pub open spec fn cache_lookup_ok(files: Seq<String>, id: Seq<char>, r: Option<String>) -> bool {
    match r {
        Some(name) => {
            ||| (spec_has_file(files, id + ".webm"@) && name@ == id + ".webm"@)
            ||| (!spec_has_file(files, id + ".webm"@) && exists|i: int|
                {
                    &&& 0 <= i < files.len()
                    &&& name@ == (#[trigger] files[i])@
                    &&& spec_starts_with(files[i]@, id)
                    &&& forall|j: int| 0 <= j < i ==> !spec_starts_with(#[trigger] files[j]@, id)
                })
        },
        None => {
            &&& !spec_has_file(files, id + ".webm"@)
            &&& forall|i: int| 0 <= i < files.len() ==> !spec_starts_with(#[trigger] files[i]@, id)
        },
    }
}

/// Looks `id` up in the cache listing: the exact `<id>.webm` first, then
/// the prefix scan.
pub fn cache_lookup(id: &str, files: &Vec<String>) -> (r: Option<String>)
    ensures
        cache_lookup_ok(files@, id@, r),
{
    if video_exists(id, files) {
        return Some(default_file_name(id));
    }
    find_cache_entry(id, files)
}

/// What `/video/request` is to do with a raw query id, given the cache
/// directory listing.
pub enum RequestDecision {
    /// The id is invalid after trimming: a `400` JSON body, no lookup,
    /// no acquisition.
    Invalid(VideoResponse),
    /// Cache hit: an immediate `200` JSON body — no event stream and no
    /// extractor run.
    CacheHit(VideoResponse),
    /// Cache miss on a valid id: subscribe to (or launch) the
    /// acquisition for the trimmed id and stream events.
    Subscribe(String),
}

/// Decides `/video/request`: trims the id, rejects an invalid one with
/// a `400` body, answers a cache hit with an immediate JSON body, and
/// otherwise hands the trimmed id to the download coordinator. A cached
/// id never reaches the coordinator, so no extractor runs for it.
pub fn decide_video_request(raw_id: &str, files: &Vec<String>) -> (r: RequestDecision)
    ensures
        ({
            let id = spec_trimmed(raw_id@);
            match r {
                RequestDecision::Invalid(resp) => {
                    &&& !spec_valid_id(id)
                    &&& resp.success == false
                    &&& resp.video_id@ == id
                    &&& resp.url is None
                    &&& resp.message matches Some(m) && m@ == "Invalid video ID"@
                },
                RequestDecision::CacheHit(resp) => {
                    &&& spec_valid_id(id)
                    &&& exists|name: String|
                        #[trigger] cache_lookup_ok(files@, id, Some(name)) && (resp.url matches
                        Some(u) && u@ == spec_file_url(name@))
                    &&& resp.success == true
                    &&& resp.video_id@ == id
                    &&& resp.message matches Some(m) && m@ == "Video already available"@
                },
                RequestDecision::Subscribe(sid) => {
                    &&& spec_valid_id(id)
                    &&& sid@ == id
                    &&& cache_lookup_ok(files@, id, Option::None)
                },
            }
        }),
{
    let id = trim_spaces(raw_id);
    if !validate_video_id(id) {
        return RequestDecision::Invalid(
            VideoResponse {
                success: false,
                video_id: String::from_str(id),
                url: None,
                message: Some(String::from_str("Invalid video ID")),
            },
        );
    }
    match cache_lookup(id, files) {
        Some(name) => {
            let url = file_url(name.as_str());
            let resp = VideoResponse {
                success: true,
                video_id: String::from_str(id),
                url: Some(url),
                message: Some(String::from_str("Video already available")),
            };
            assert(cache_lookup_ok(files@, id@, Some(name)));
            RequestDecision::CacheHit(resp)
        },
        None => RequestDecision::Subscribe(String::from_str(id)),
    }
}

/// Answers `/video/status`: a pure cache query on the trimmed id — no
/// subscription, no launch.
pub fn status_response(raw_id: &str, files: &Vec<String>) -> (r: VideoResponse)
    ensures
        ({
            let id = spec_trimmed(raw_id@);
            &&& r.video_id@ == id
            &&& match r.url {
                Some(u) => {
                    &&& r.success == true
                    &&& exists|name: String|
                        #[trigger] cache_lookup_ok(files@, id, Some(name)) && (u@ == spec_file_url(
                            name@,
                        ))
                    &&& r.message matches Some(m) && m@ == "Video available"@
                },
                None => {
                    &&& r.success == false
                    &&& cache_lookup_ok(files@, id, Option::None)
                    &&& r.message matches Some(m) && m@ == "Video not downloaded"@
                },
            }
        }),
{
    let id = trim_spaces(raw_id);
    match cache_lookup(id, files) {
        Some(name) => {
            let url = file_url(name.as_str());
            assert(cache_lookup_ok(files@, id@, Some(name)));
            VideoResponse {
                success: true,
                video_id: String::from_str(id),
                url: Some(url),
                message: Some(String::from_str("Video available")),
            }
        },
        None => VideoResponse {
            success: false,
            video_id: String::from_str(id),
            url: None,
            message: Some(String::from_str("Video not downloaded")),
        },
    }
}

} // verus!
