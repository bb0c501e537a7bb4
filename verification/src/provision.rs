//! Release-feed handling: picking the extractor binary's download URL
//! out of the release JSON, and the updater's asset selection.

use vstd::prelude::*;

use crate::credentials::Platform;
use crate::text::spec_ends_with;
use crate::text::str_ends_with;
use crate::text::str_eq;
use crate::ytdlp::spec_ytdlp_binary_name;
use crate::ytdlp::ytdlp_binary_name;

verus! {

/// One asset of a release, as found in the feed; either field may be
/// missing in the JSON.
#[derive(Clone, Debug)]
pub struct ReleaseAsset {
    pub name: Option<String>,
    pub url: Option<String>,
}

/// The view of an asset: its two optional strings.
pub open spec fn asset_view(a: ReleaseAsset) -> (Option<Seq<char>>, Option<Seq<char>>) {
    (
        match a.name {
            Some(n) => Some(n@),
            None => None,
        },
        match a.url {
            Some(u) => Some(u@),
            None => None,
        },
    )
}

/// The view of an optional string.
pub open spec fn opt_str_view(o: Option<String>) -> Option<Seq<char>> {
    match o {
        Some(s) => Some(s@),
        None => None,
    }
}

/// The asset list (name, download URL) that the release-feed JSON body
/// decodes to, or `None` when the body is not such a document. A pure
/// function of the bytes.
pub uninterp spec fn release_assets_of(body: Seq<u8>) -> Option<
    Seq<(Option<Seq<char>>, Option<Seq<char>>)>,
>;

/// Relies on `serde_json::from_slice` and `Value::{get, as_array,
/// as_str}`: decodes the release document and hands out each asset's
/// `name` and `browser_download_url` strings. The decode depends on the
/// bytes alone.
#[verifier::external_body]
fn parse_release_assets(body: &Vec<u8>) -> (r: Option<Vec<ReleaseAsset>>)
    ensures
        match r {
            Some(assets) => release_assets_of(body@) == Some(
                assets@.map_values(|a: ReleaseAsset| asset_view(a)),
            ),
            None => release_assets_of(body@) is None,
        },
{
    let v: serde_json::Value = serde_json::from_slice(body.as_slice()).ok()?;
    let arr = v.get("assets")?.as_array()?;
    Some(
        arr.iter().map(
            |a| ReleaseAsset {
                name: a.get("name").and_then(|n| n.as_str()).map(|s| s.to_string()),
                url: a.get("browser_download_url").and_then(|u| u.as_str()).map(|s| s.to_string()),
            },
        ).collect(),
    )
}

/// The index of the first asset named `name`, if any.
pub open spec fn first_named(
    assets: Seq<(Option<Seq<char>>, Option<Seq<char>>)>,
    name: Seq<char>,
    i: int,
) -> Option<int>
    decreases assets.len() - i,
{
    if i < 0 || i >= assets.len() {
        None
    } else if assets[i].0 == Some(name) {
        Some(i)
    } else {
        first_named(assets, name, i + 1)
    }
}

/// The download URL of the first listed asset carrying `binary_name`,
/// when that asset gives one.
pub fn find_asset_url(assets: &Vec<ReleaseAsset>, binary_name: &str) -> (r: Option<String>)
    ensures
        ({
            let views = assets@.map_values(|a: ReleaseAsset| asset_view(a));
            match first_named(views, binary_name@, 0) {
                Some(i) => opt_str_view(r) == views[i].1,
                None => r is None,
            }
        }),
{
    let ghost views = assets@.map_values(|a: ReleaseAsset| asset_view(a));
    let n = assets.len();
    let mut i: usize = 0;
    while i < n
        invariant
            n == assets@.len(),
            views == assets@.map_values(|a: ReleaseAsset| asset_view(a)),
            i <= n,
            first_named(views, binary_name@, 0) == first_named(views, binary_name@, i as int),
        decreases n - i,
    {
        let hit = match &assets[i].name {
            Some(name) => str_eq(name.as_str(), binary_name),
            None => false,
        };
        if hit {
            assert(views[i as int].0 == Some(binary_name@));
            assert(first_named(views, binary_name@, i as int) == Some(i as int));
            return match &assets[i].url {
                Some(u) => Some(u.clone()),
                None => None,
            };
        }
        assert(views[i as int].0 != Some(binary_name@));
        assert(first_named(views, binary_name@, i as int) == first_named(
            views,
            binary_name@,
            i + 1,
        ));
        i += 1;
    }
    assert(first_named(views, binary_name@, n as int) is None);
    None
}

/// Picks the download URL of the platform's extractor binary out of the
/// release-feed JSON body: the first asset named exactly as the binary.
pub fn select_ytdlp_download_url(body: &Vec<u8>, platform: Platform) -> (r: Option<String>)
    ensures
        ({
            match release_assets_of(body@) {
                Some(views) => match first_named(views, spec_ytdlp_binary_name(platform), 0) {
                    Some(i) => opt_str_view(r) == views[i].1,
                    None => r is None,
                },
                None => r is None,
            }
        }),
{
    match parse_release_assets(body) {
        Some(assets) => find_asset_url(&assets, ytdlp_binary_name(platform)),
        None => None,
    }
}

/// Strips every leading `v` from a release tag.
pub open spec fn skip_v(s: Seq<char>, i: int) -> int
    decreases s.len() - i,
{
    if 0 <= i < s.len() && s[i] == 'v' {
        skip_v(s, i + 1)
    } else {
        i
    }
}

/// Normalises a release tag to a bare version: leading `v`s removed.
pub fn normalize_version(tag: &str) -> (r: String)
    ensures
        r@ == tag@.subrange(skip_v(tag@, 0), tag@.len() as int),
{
    let len = tag.unicode_len();
    let mut a: usize = 0;
    while a < len && tag.get_char(a) == 'v'
        invariant
            len == tag@.len(),
            a <= len,
            skip_v(tag@, 0) == skip_v(tag@, a as int),
        decreases len - a,
    {
        assert(skip_v(tag@, a as int) == skip_v(tag@, a + 1));
        a += 1;
    }
    assert(skip_v(tag@, a as int) == a);
    String::from_str(tag.substring_char(a, len))
}

/// One installer asset of the application's own release feed.
#[derive(Clone, Debug)]
pub struct UpdateAsset {
    pub name: String,
    pub url: String,
}

impl UpdateAsset {
    /// A field-by-field copy, equal to the original.
    pub fn duplicate(&self) -> (a: UpdateAsset)
        ensures
            a == *self,
    {
        UpdateAsset { name: self.name.clone(), url: self.url.clone() }
    }
}

/// The installer suffixes a platform prefers, most specific first.
pub open spec fn spec_preferred_exts(p: Platform) -> Seq<Seq<char>> {
    match p {
        Platform::Windows => seq![".exe"@, ".msi"@],
        Platform::MacOs => seq![".dmg"@, ".app.tar.gz"@, ".zip"@],
        Platform::Linux => seq![".AppImage"@, ".appimage"@, ".tar.gz"@],
    }
}

/// The installer suffixes a platform prefers, most specific first.
pub fn preferred_exts(p: Platform) -> (r: Vec<String>)
    ensures
        r@.map_values(|s: String| s@) == spec_preferred_exts(p),
{
    let mut r: Vec<String> = Vec::new();
    match p {
        Platform::Windows => {
            r.push(String::from_str(".exe"));
            r.push(String::from_str(".msi"));
        },
        Platform::MacOs => {
            r.push(String::from_str(".dmg"));
            r.push(String::from_str(".app.tar.gz"));
            r.push(String::from_str(".zip"));
        },
        Platform::Linux => {
            r.push(String::from_str(".AppImage"));
            r.push(String::from_str(".appimage"));
            r.push(String::from_str(".tar.gz"));
        },
    }
    proof {
        assert(r@.map_values(|s: String| s@) =~= spec_preferred_exts(p));
    }
    r
}

/// The index of the first asset whose name ends in `ext`, if any.
pub open spec fn first_with_ext(assets: Seq<UpdateAsset>, ext: Seq<char>, i: int) -> Option<int>
    decreases assets.len() - i,
{
    if i < 0 || i >= assets.len() {
        None
    } else if spec_ends_with(assets[i].name@, ext) {
        Some(i)
    } else {
        first_with_ext(assets, ext, i + 1)
    }
}

/// The asset the updater installs: for the first preferred suffix that
/// any asset's name ends in, that first asset; with no suffix match, the
/// first asset of the list, if any.
pub open spec fn spec_select_asset(assets: Seq<UpdateAsset>, exts: Seq<Seq<char>>, k: int) -> Option<
    UpdateAsset,
>
    decreases exts.len() - k,
{
    if k < 0 || k >= exts.len() {
        if assets.len() > 0 {
            Some(assets[0])
        } else {
            None
        }
    } else {
        match first_with_ext(assets, exts[k], 0) {
            Some(i) => Some(assets[i]),
            None => spec_select_asset(assets, exts, k + 1),
        }
    }
}

/// Picks the installer asset for the platform: the preferred suffixes in
/// order, then the feed's first asset as fallback.
pub fn select_asset(assets: &Vec<UpdateAsset>, platform: Platform) -> (r: Option<UpdateAsset>)
    ensures
        r == spec_select_asset(assets@, spec_preferred_exts(platform), 0),
{
    let exts = preferred_exts(platform);
    let ghost exts_v = spec_preferred_exts(platform);
    let m = exts.len();
    let mut k: usize = 0;
    while k < m
        invariant
            exts_v == spec_preferred_exts(platform),
            m == exts_v.len(),
            exts@.map_values(|s: String| s@) == exts_v,
            exts@.len() == m,
            k <= m,
            spec_select_asset(assets@, exts_v, 0) == spec_select_asset(assets@, exts_v, k as int),
        decreases m - k,
    {
        let ext = &exts[k];
        let n = assets.len();
        let mut i: usize = 0;
        while i < n
            invariant
                exts_v == spec_preferred_exts(platform),
                n == assets@.len(),
                exts@.len() == m,
                k < m,
                ext == exts@[k as int],
                exts@.map_values(|s: String| s@) == exts_v,
                m == exts_v.len(),
                spec_select_asset(assets@, exts_v, 0) == spec_select_asset(
                    assets@,
                    exts_v,
                    k as int,
                ),
                i <= n,
                first_with_ext(assets@, exts_v[k as int], 0) == first_with_ext(
                    assets@,
                    exts_v[k as int],
                    i as int,
                ),
            decreases n - i,
        {
            if str_ends_with(assets[i].name.as_str(), ext.as_str()) {
                assert(spec_ends_with(assets@[i as int].name@, exts_v[k as int]));
                assert(first_with_ext(assets@, exts_v[k as int], i as int) == Some(i as int));
                assert(spec_select_asset(assets@, exts_v, k as int) == Some(assets@[i as int]));
                return Some(assets[i].duplicate());
            }
            assert(first_with_ext(assets@, exts_v[k as int], i as int) == first_with_ext(
                assets@,
                exts_v[k as int],
                i + 1,
            ));
            i += 1;
        }
        assert(first_with_ext(assets@, exts_v[k as int], n as int) is None);
        assert(spec_select_asset(assets@, exts_v, k as int) == spec_select_asset(
            assets@,
            exts_v,
            k + 1,
        ));
        k += 1;
    }
    assert(spec_select_asset(assets@, exts_v, m as int) == if assets@.len() > 0 {
        Some(assets@[0])
    } else {
        Option::None
    });
    if assets.len() > 0 {
        Some(assets[0].duplicate())
    } else {
        None
    }
}

} // verus!
