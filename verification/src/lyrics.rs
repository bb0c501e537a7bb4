//! Lyrics relay data model and the derived current-line query.

use vstd::prelude::*;

verus! {

/// Track metadata published by the player extension.
#[derive(Clone, Debug)]
pub struct TrackInfo {
    pub title: String,
    pub artist: String,
    pub album: String,
    pub album_art: Option<String>,
    pub duration: u64,
}

/// One time-synchronised lyric line. An absent `end_time` counts as equal
/// to `start_time`.
#[derive(Clone, Debug)]
pub struct LyricLine {
    pub start_time: i64,
    pub end_time: Option<i64>,
    pub text: String,
    pub pron_text: Option<String>,
    pub trans_text: Option<String>,
}

/// The full lyrics payload for a track.
#[derive(Clone, Debug)]
pub struct LyricsData {
    pub track: TrackInfo,
    pub lyrics: Vec<LyricLine>,
    pub is_synced: bool,
}

/// Preview of the following track.
#[derive(Clone, Debug)]
pub struct NextTrackInfo {
    pub title: String,
    pub artist: String,
    pub album_art: Option<String>,
}

/// The effective end of a line's interval.
pub open spec fn line_end(l: LyricLine) -> int {
    match l.end_time {
        Some(e) => e as int,
        None => l.start_time as int,
    }
}

/// Whether position `t` falls inside the line's interval.
pub open spec fn line_covers(l: LyricLine, t: int) -> bool {
    l.start_time <= t && t <= line_end(l)
}

/// The scan of §current-line: walk lines in order from index `i` carrying
/// the last line already begun (`cur`); stop on the first line whose
/// interval contains `t`, or carry `cur` once a line starts after `t`.
pub open spec fn scan_current_line(
    lines: Seq<LyricLine>,
    t: int,
    i: int,
    cur: Option<int>,
) -> Option<int>
    decreases lines.len() - i,
{
    if i < 0 || i >= lines.len() {
        cur
    } else if line_covers(lines[i], t) {
        Some(i)
    } else if lines[i].start_time > t {
        cur
    } else {
        scan_current_line(lines, t, i + 1, Some(i))
    }
}

/// Index of the line to show at position `t`, or `None` before the first
/// line (or with no lines at all).
pub open spec fn spec_current_line(lines: Seq<LyricLine>, t: int) -> Option<int> {
    scan_current_line(lines, t, 0, None)
}

fn clone_opt_string(o: &Option<String>) -> (r: Option<String>)
    ensures
        r == *o,
{
    match o {
        Some(s) => Some(s.clone()),
        None => None,
    }
}

impl LyricLine {
    /// A field-by-field copy, equal to the original.
    pub fn duplicate(&self) -> (l: LyricLine)
        ensures
            l == *self,
    {
        LyricLine {
            start_time: self.start_time,
            end_time: self.end_time,
            text: self.text.clone(),
            pron_text: clone_opt_string(&self.pron_text),
            trans_text: clone_opt_string(&self.trans_text),
        }
    }
}

/// Maps the running cursor into the spec scan's accumulator.
pub open spec fn opt_idx(cur: Option<usize>) -> Option<int> {
    match cur {
        Some(j) => Some(j as int),
        None => None,
    }
}

/// The lyric line to show at playback position `t` (milliseconds): the
/// first line whose interval contains `t`, scanning in order; across a gap
/// between lines, the line most recently begun is carried; `None` before
/// the first line.
pub fn current_line(data: &LyricsData, t: i64) -> (r: Option<LyricLine>)
    ensures
        match spec_current_line(data.lyrics@, t as int) {
            Some(i) => r == Some(data.lyrics@[i]),
            None => r is None,
        },
{
    let n = data.lyrics.len();
    let mut i: usize = 0;
    let mut cur: Option<usize> = None;
    while i < n
        invariant
            n == data.lyrics@.len(),
            i <= n,
            match cur {
                Some(j) => j < i,
                None => true,
            },
            spec_current_line(data.lyrics@, t as int) == scan_current_line(
                data.lyrics@,
                t as int,
                i as int,
                opt_idx(cur),
            ),
        decreases n - i,
    {
        let line = &data.lyrics[i];
        let e = match line.end_time {
            Some(e) => e,
            None => line.start_time,
        };
        if line.start_time <= t && t <= e {
            assert(line_covers(data.lyrics@[i as int], t as int));
            return Some(data.lyrics[i].duplicate());
        }
        if line.start_time > t {
            return match cur {
                Some(j) => Some(data.lyrics[j].duplicate()),
                None => None,
            };
        }
        cur = Some(i);
        i += 1;
    }
    match cur {
        Some(j) => Some(data.lyrics[j].duplicate()),
        None => None,
    }
}

} // verus!
