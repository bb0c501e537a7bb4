//! Credential resolution for age-restricted content: browser tags, the
//! platform priority order, and the ordered credential chain.

use vstd::prelude::*;

use crate::seqx::lemma_empty_to_multiset;
use crate::seqx::lemma_seq_insert_to_multiset;

verus! {

/// The platform the helper runs on; it decides binary names, probe paths
/// and the browser priority order.
#[derive(Clone, Copy, Debug, PartialEq, Eq, Structural)]
pub enum Platform {
    Windows,
    MacOs,
    Linux,
}

/// A browser whose cookie store the extractor can read.
#[derive(Clone, Copy, Debug, PartialEq, Eq, Structural)]
pub enum Browser {
    Chrome,
    Edge,
    Firefox,
    Vivaldi,
    Opera,
    Brave,
    Whale,
    Safari,
    Chromium,
}

/// One credential for an extraction attempt: a cookie-jar file or a
/// browser cookie store. The very first attempt runs without any.
#[derive(Clone, Debug)]
pub enum Credential {
    CookieFile(String),
    FromBrowser(Browser),
}

/// The extractor tag for a browser, as passed to
/// `--cookies-from-browser`.
pub open spec fn spec_browser_tag(b: Browser) -> Seq<char> {
    match b {
        Browser::Chrome => "chrome"@,
        Browser::Edge => "edge"@,
        Browser::Firefox => "firefox"@,
        Browser::Vivaldi => "vivaldi"@,
        Browser::Opera => "opera"@,
        Browser::Brave => "brave"@,
        Browser::Whale => "whale"@,
        Browser::Safari => "safari"@,
        Browser::Chromium => "chromium"@,
    }
}

/// The extractor tag for a browser.
pub fn browser_tag(b: Browser) -> (r: &'static str)
    ensures
        r@ == spec_browser_tag(b),
{
    match b {
        Browser::Chrome => "chrome",
        Browser::Edge => "edge",
        Browser::Firefox => "firefox",
        Browser::Vivaldi => "vivaldi",
        Browser::Opera => "opera",
        Browser::Brave => "brave",
        Browser::Whale => "whale",
        Browser::Safari => "safari",
        Browser::Chromium => "chromium",
    }
}

/// Retry rank of a browser on a platform; lower tries first. Browsers
/// with historically reliable cookie extraction rank first: on Windows
/// the Chromium family suffers OS-level cookie encryption and ranks after
/// Firefox and Whale. Browsers outside the platform's list rank last.
pub open spec fn spec_priority(p: Platform, b: Browser) -> int {
    match p {
        Platform::Windows => match b {
            Browser::Firefox => 0,
            Browser::Whale => 1,
            Browser::Chrome => 2,
            Browser::Edge => 3,
            Browser::Vivaldi => 4,
            Browser::Opera => 5,
            Browser::Brave => 6,
            _ => 999,
        },
        Platform::MacOs => match b {
            Browser::Chrome => 0,
            Browser::Edge => 1,
            Browser::Firefox => 2,
            Browser::Vivaldi => 3,
            Browser::Opera => 4,
            Browser::Brave => 5,
            Browser::Whale => 6,
            Browser::Safari => 7,
            _ => 999,
        },
        Platform::Linux => match b {
            Browser::Chrome => 0,
            Browser::Edge => 1,
            Browser::Firefox => 2,
            Browser::Vivaldi => 3,
            Browser::Opera => 4,
            Browser::Brave => 5,
            Browser::Chromium => 6,
            _ => 999,
        },
    }
}

/// Retry rank of a browser on a platform; lower tries first.
pub fn priority(p: Platform, b: Browser) -> (r: u32)
    ensures
        r == spec_priority(p, b),
{
    match p {
        Platform::Windows => match b {
            Browser::Firefox => 0,
            Browser::Whale => 1,
            Browser::Chrome => 2,
            Browser::Edge => 3,
            Browser::Vivaldi => 4,
            Browser::Opera => 5,
            Browser::Brave => 6,
            _ => 999,
        },
        Platform::MacOs => match b {
            Browser::Chrome => 0,
            Browser::Edge => 1,
            Browser::Firefox => 2,
            Browser::Vivaldi => 3,
            Browser::Opera => 4,
            Browser::Brave => 5,
            Browser::Whale => 6,
            Browser::Safari => 7,
            _ => 999,
        },
        Platform::Linux => match b {
            Browser::Chrome => 0,
            Browser::Edge => 1,
            Browser::Firefox => 2,
            Browser::Vivaldi => 3,
            Browser::Opera => 4,
            Browser::Brave => 5,
            Browser::Chromium => 6,
            _ => 999,
        },
    }
}

/// Non-decreasing priority on a platform.
pub open spec fn priority_sorted(p: Platform, s: Seq<Browser>) -> bool {
    forall|i: int, j: int|
        0 <= i < j < s.len() ==> spec_priority(p, s[i]) <= spec_priority(p, s[j])
}

/// Orders detected browsers by the platform's retry priority; the result
/// is a permutation of the input.
pub fn order_browsers(p: Platform, detected: &Vec<Browser>) -> (r: Vec<Browser>)
    ensures
        priority_sorted(p, r@),
        r@.to_multiset() == detected@.to_multiset(),
{
    let n = detected.len();
    let mut sorted: Vec<Browser> = Vec::new();
    proof {
        lemma_empty_to_multiset(sorted@);
        lemma_empty_to_multiset(detected@.take(0));
        assert(sorted@.to_multiset() =~= detected@.take(0).to_multiset());
    }
    let mut i: usize = 0;
    while i < n
        invariant
            n == detected@.len(),
            i <= n,
            priority_sorted(p, sorted@),
            sorted@.to_multiset() == detected@.take(i as int).to_multiset(),
        decreases n - i,
    {
        let b = detected[i];
        let key = priority(p, b);
        let m = sorted.len();
        let mut pos: usize = 0;
        while pos < m && priority(p, sorted[pos]) <= key
            invariant
                m == sorted@.len(),
                pos <= m,
                key == spec_priority(p, b),
                forall|k: int| 0 <= k < pos ==> spec_priority(p, sorted@[k]) <= key,
            decreases m - pos,
        {
            pos += 1;
        }
        assert(forall|k: int|
            pos <= k < sorted@.len() ==> key < spec_priority(p, sorted@[k])) by {
            assert(forall|k: int|
                pos < k < sorted@.len() ==> spec_priority(p, sorted@[pos as int]) <= spec_priority(
                    p,
                    sorted@[k],
                ));
        }
        proof {
            lemma_seq_insert_to_multiset(sorted@, pos as int, b);
            broadcast use vstd::seq_lib::group_to_multiset_ensures;

            assert(detected@.take(i + 1).drop_last() =~= detected@.take(i as int));
            assert(detected@.take(i + 1) =~= detected@.take(i as int).push(detected@[i as int]));
        }
        sorted.insert(pos, b);
        assert(priority_sorted(p, sorted@));
        i += 1;
    }
    proof {
        assert(detected@.take(n as int) =~= detected@);
    }
    sorted
}

/// Maps a browser list to browser credentials.
pub open spec fn browser_credentials(s: Seq<Browser>) -> Seq<Credential> {
    s.map_values(|b: Browser| Credential::FromBrowser(b))
}

/// The ordered credential chain for the retry walk: the cookie-jar file
/// first when one is installed, then the browsers in the given order.
pub fn ordered_credentials(cookie_file: Option<String>, browsers: &Vec<Browser>) -> (r: Vec<
    Credential,
>)
    ensures
        r@ == match cookie_file {
            Some(path) => seq![Credential::CookieFile(path)] + browser_credentials(browsers@),
            None => browser_credentials(browsers@),
        },
{
    let ghost head: Seq<Credential> = if cookie_file is Some {
        seq![Credential::CookieFile(cookie_file->0)]
    } else {
        Seq::empty()
    };
    let mut r: Vec<Credential> = Vec::new();
    match cookie_file {
        Some(path) => {
            r.push(Credential::CookieFile(path));
        },
        None => {},
    }
    assert(r@ =~= head);
    let ghost had_cookie = head.len() > 0;
    let n = browsers.len();
    let mut i: usize = 0;
    while i < n
        invariant
            n == browsers@.len(),
            i <= n,
            r@ == head + browser_credentials(browsers@.take(i as int)),
        decreases n - i,
    {
        r.push(Credential::FromBrowser(browsers[i]));
        proof {
            assert(browser_credentials(browsers@.take(i + 1)) =~= browser_credentials(
                browsers@.take(i as int),
            ).push(Credential::FromBrowser(browsers@[i as int])));
            assert(r@ =~= head + browser_credentials(browsers@.take(i + 1)));
        }
        i += 1;
    }
    proof {
        assert(browsers@.take(n as int) =~= browsers@);
        if !had_cookie {
            assert(r@ =~= browser_credentials(browsers@));
        }
    }
    r
}

} // verus!
