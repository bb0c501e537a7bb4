//! Cache store model: usage accounting, the oldest-first prune plan, and
//! cache-entry lookup by filename prefix.

use vstd::prelude::*;

use crate::seqx::lemma_empty_to_multiset;
use crate::seqx::lemma_seq_insert_to_multiset;
use crate::text::spec_starts_with;
use crate::text::str_eq;
use crate::text::str_starts_with;

verus! {

/// One regular file in the cache directory.
#[derive(Clone, Debug)]
pub struct CacheFile {
    pub name: String,
    /// Modification time, seconds since the epoch.
    pub mtime: u64,
    /// Size in bytes.
    pub size: u64,
}

impl CacheFile {
    /// A field-by-field copy, equal to the original.
    pub fn duplicate(&self) -> (f: CacheFile)
        ensures
            f == *self,
    {
        CacheFile { name: self.name.clone(), mtime: self.mtime, size: self.size }
    }
}

/// Total size in bytes of a list of files.
pub open spec fn spec_total(s: Seq<CacheFile>) -> int
    decreases s.len(),
{
    if s.len() == 0 {
        0
    } else {
        spec_total(s.drop_last()) + s.last().size
    }
}

/// Non-decreasing modification times.
pub open spec fn mtime_sorted(s: Seq<CacheFile>) -> bool {
    forall|i: int, j: int| 0 <= i < j < s.len() ==> s[i].mtime <= s[j].mtime
}

proof fn lemma_total_take_step(s: Seq<CacheFile>, i: int)
    requires
        0 <= i < s.len(),
    ensures
        spec_total(s.take(i + 1)) == spec_total(s.take(i)) + s[i].size,
{
    assert(s.take(i + 1).drop_last() =~= s.take(i));
    assert(s.take(i + 1).last() == s[i]);
}

proof fn lemma_total_take_bound(s: Seq<CacheFile>, i: int)
    requires
        0 <= i <= s.len(),
    ensures
        spec_total(s.take(i)) <= spec_total(s),
        spec_total(s.take(i)) >= 0,
    decreases s.len() - i,
{
    lemma_total_nonneg(s.take(i));
    if i == s.len() {
        assert(s.take(i) =~= s);
    } else {
        lemma_total_take_step(s, i);
        lemma_total_take_bound(s, i + 1);
    }
}

proof fn lemma_total_nonneg(s: Seq<CacheFile>)
    ensures
        spec_total(s) >= 0,
    decreases s.len(),
{
    if s.len() > 0 {
        lemma_total_nonneg(s.drop_last());
    }
}

proof fn lemma_total_remove(s: Seq<CacheFile>, i: int)
    requires
        0 <= i < s.len(),
    ensures
        spec_total(s.remove(i)) == spec_total(s) - s[i].size,
    decreases s.len(),
{
    if i == s.len() - 1 {
        assert(s.remove(i) =~= s.drop_last());
    } else {
        assert(s.remove(i).drop_last() =~= s.drop_last().remove(i));
        assert(s.remove(i).last() == s.last());
        lemma_total_remove(s.drop_last(), i);
    }
}

/// The total size of a list of files depends only on its multiset of
/// entries, not on their order.
pub proof fn lemma_total_permutation(s1: Seq<CacheFile>, s2: Seq<CacheFile>)
    requires
        s1.to_multiset() == s2.to_multiset(),
    ensures
        spec_total(s1) == spec_total(s2),
    decreases s1.len(),
{
    broadcast use vstd::seq_lib::group_to_multiset_ensures;
    broadcast use vstd::multiset::group_multiset_axioms;

    if s1.len() == 0 {
        assert(s2.to_multiset().len() == 0);
    } else {
        let x = s1.last();
        assert(s1.contains(x));
        assert(s1.to_multiset().count(x) > 0);
        assert(s2.to_multiset().count(x) > 0);
        assert(s2.contains(x));
        let j = choose|j: int| 0 <= j < s2.len() && s2[j] == x;
        assert(s1.remove(s1.len() - 1).to_multiset() =~= s1.to_multiset().remove(x));
        assert(s1.remove(s1.len() - 1) =~= s1.drop_last());
        assert(s2.remove(j).to_multiset() =~= s2.to_multiset().remove(x));
        assert(s1.drop_last().to_multiset() =~= s2.remove(j).to_multiset());
        lemma_total_permutation(s1.drop_last(), s2.remove(j));
        lemma_total_remove(s2, j);
    }
}

/// Sorts files by ascending modification time; a permutation of the input.
pub fn sort_by_mtime(files: &Vec<CacheFile>) -> (r: Vec<CacheFile>)
    ensures
        mtime_sorted(r@),
        r@.to_multiset() == files@.to_multiset(),
{
    let n = files.len();
    let mut sorted: Vec<CacheFile> = Vec::new();
    proof {
        broadcast use vstd::seq_lib::group_to_multiset_ensures;
        broadcast use vstd::multiset::group_multiset_axioms;

        lemma_empty_to_multiset(sorted@);
        lemma_empty_to_multiset(files@.take(0));
        assert(sorted@.to_multiset() =~= files@.take(0).to_multiset());
    }
    let mut i: usize = 0;
    while i < n
        invariant
            n == files@.len(),
            i <= n,
            mtime_sorted(sorted@),
            sorted@.to_multiset() == files@.take(i as int).to_multiset(),
        decreases n - i,
    {
        let f = files[i].duplicate();
        let m = sorted.len();
        let mut pos: usize = 0;
        while pos < m && sorted[pos].mtime <= f.mtime
            invariant
                m == sorted@.len(),
                pos <= m,
                forall|k: int| 0 <= k < pos ==> sorted@[k].mtime <= f.mtime,
            decreases m - pos,
        {
            pos += 1;
        }
        assert(forall|k: int|
            pos <= k < sorted@.len() ==> f.mtime < sorted@[k].mtime) by {
            assert(forall|k: int|
                pos < k < sorted@.len() ==> sorted@[pos as int].mtime <= sorted@[k].mtime);
        }
        proof {
            lemma_seq_insert_to_multiset(sorted@, pos as int, f);
            broadcast use vstd::seq_lib::group_to_multiset_ensures;

            assert(files@.take(i + 1).drop_last() =~= files@.take(i as int));
            assert(files@.take(i + 1) =~= files@.take(i as int).push(files@[i as int]));
        }
        sorted.insert(pos, f);
        assert(mtime_sorted(sorted@));
        i += 1;
    }
    proof {
        assert(files@.take(n as int) =~= files@);
    }
    sorted
}

/// Total bytes held by the listed files, saturating at the machine limit.
pub fn usage(files: &Vec<CacheFile>) -> (r: u64)
    ensures
        r as int == if spec_total(files@) > u64::MAX {
            u64::MAX as int
        } else {
            spec_total(files@)
        },
{
    let n = files.len();
    let mut running: u64 = 0;
    let mut i: usize = 0;
    while i < n
        invariant
            n == files@.len(),
            i <= n,
            running as int == if spec_total(files@.take(i as int)) > u64::MAX {
                u64::MAX as int
            } else {
                spec_total(files@.take(i as int))
            },
        decreases n - i,
    {
        proof {
            lemma_total_take_step(files@, i as int);
            lemma_total_nonneg(files@.take(i as int));
        }
        let size = files[i].size;
        if size > u64::MAX - running {
            running = u64::MAX;
        } else {
            running = running + size;
        }
        i += 1;
    }
    proof {
        assert(files@.take(n as int) =~= files@);
    }
    running
}

/// What a correct prune plan promises: nothing is deleted when the bound
/// is off or already met; otherwise the plan deletes just enough and only
/// the oldest files, oldest first.
pub open spec fn prune_plan_ok(files: Seq<CacheFile>, max_bytes: u64, plan: Seq<CacheFile>) -> bool {
    &&& max_bytes == 0 ==> plan.len() == 0
    &&& spec_total(files) <= max_bytes ==> plan.len() == 0
    &&& max_bytes > 0 ==> spec_total(files) - spec_total(plan) <= max_bytes
    &&& plan.len() > 0 ==> spec_total(files) - spec_total(plan.drop_last()) > max_bytes
    &&& mtime_sorted(plan)
    &&& forall|f: CacheFile| #[trigger]
        plan.to_multiset().count(f) <= files.to_multiset().count(f)
    &&& forall|i: int, f: CacheFile|
        0 <= i < plan.len() && files.to_multiset().count(f) > plan.to_multiset().count(f)
            ==> #[trigger] plan[i].mtime <= #[trigger] f.mtime
}

/// Computes the list of files to delete, oldest first, so that the
/// remaining total is at or below `max_bytes`; empty when the bound is
/// zero (unbounded) or already met.
pub fn plan_prune(files: &Vec<CacheFile>, max_bytes: u64) -> (r: Vec<CacheFile>)
    requires
        spec_total(files@) <= u64::MAX,
    ensures
        prune_plan_ok(files@, max_bytes, r@),
{
    if max_bytes == 0 {
        let r: Vec<CacheFile> = Vec::new();
        proof {
            lemma_empty_to_multiset(r@);
        }
        return r;
    }
    let total0 = usage(files);
    proof {
        lemma_total_nonneg(files@);
    }
    if total0 <= max_bytes {
        let r: Vec<CacheFile> = Vec::new();
        proof {
            lemma_empty_to_multiset(r@);
        }
        return r;
    }
    let sorted = sort_by_mtime(files);
    proof {
        lemma_total_permutation(files@, sorted@);
    }
    let len = sorted.len();
    proof {
        broadcast use vstd::seq_lib::group_to_multiset_ensures;

        assert(sorted@.len() == sorted@.to_multiset().len());
        assert(files@.len() == files@.to_multiset().len());
        assert(sorted@.len() == files@.len());
    }
    let mut plan: Vec<CacheFile> = Vec::new();
    let mut running = total0;
    let mut idx: usize = 0;
    while idx < len && running > max_bytes
        invariant
            len == sorted@.len(),
            idx <= len,
            mtime_sorted(sorted@),
            sorted@.to_multiset() == files@.to_multiset(),
            spec_total(sorted@) == spec_total(files@),
            total0 as int == spec_total(files@),
            spec_total(files@) <= u64::MAX,
            plan@ == sorted@.take(idx as int),
            running as int == total0 - spec_total(plan@),
            plan@.len() > 0 ==> spec_total(files@) - spec_total(plan@.drop_last()) > max_bytes,
            max_bytes > 0,
        decreases len - idx,
    {
        proof {
            lemma_total_take_step(sorted@, idx as int);
            lemma_total_take_bound(sorted@, idx as int);
            lemma_total_take_bound(sorted@, idx + 1);
            assert(sorted@.take(idx + 1).drop_last() =~= sorted@.take(idx as int));
        }
        let f = sorted[idx].duplicate();
        plan.push(f);
        proof {
            assert(plan@ =~= sorted@.take(idx + 1));
        }
        running = running - sorted[idx].size;
        idx += 1;
    }
    proof {
        broadcast use vstd::seq_lib::group_to_multiset_ensures;
        broadcast use vstd::multiset::group_multiset_axioms;

        if idx == len && running > max_bytes {
            assert(plan@ =~= sorted@);
            assert(spec_total(plan@) == spec_total(sorted@));
        }
        // the plan is a prefix of `sorted`; everything else of `files`
        // lives in the rest of `sorted` and is no older.
        let rest = sorted@.skip(idx as int);
        assert(sorted@ =~= sorted@.take(idx as int) + rest);
        vstd::seq_lib::lemma_multiset_commutative(sorted@.take(idx as int), rest);
        assert forall|f: CacheFile| #[trigger]
            plan@.to_multiset().count(f) <= files@.to_multiset().count(f) by {
            assert(files@.to_multiset().count(f) == plan@.to_multiset().count(f)
                + rest.to_multiset().count(f));
        }
        assert forall|i: int, f: CacheFile|
            0 <= i < plan@.len() && files@.to_multiset().count(f) > plan@.to_multiset().count(f)
                implies #[trigger] plan@[i].mtime <= #[trigger] f.mtime by {
            assert(files@.to_multiset().count(f) == plan@.to_multiset().count(f)
                + rest.to_multiset().count(f));
            assert(rest.to_multiset().count(f) > 0);
            assert(rest.contains(f));
            let k = choose|k: int| 0 <= k < rest.len() && rest[k] == f;
            assert(sorted@[idx + k] == f);
            assert(sorted@[i] == plan@[i]);
        }
    }
    plan
}

/// A strictly youngest file that alone fits the bound is never part of a
/// prune plan: pruning deletes from the oldest end and stops at the bound.
pub proof fn lemma_prune_spares_youngest(
    files: Seq<CacheFile>,
    max_bytes: u64,
    plan: Seq<CacheFile>,
    y: CacheFile,
)
    requires
        prune_plan_ok(files, max_bytes, plan),
        max_bytes > 0,
        files.to_multiset().count(y) == 1,
        forall|j: int| 0 <= j < files.len() && files[j] != y ==> #[trigger] files[j].mtime < y.mtime,
        y.size <= max_bytes,
    ensures
        !plan.contains(y),
{
    broadcast use vstd::seq_lib::group_to_multiset_ensures;
    broadcast use vstd::multiset::group_multiset_axioms;

    if plan.contains(y) {
        let i = choose|i: int| 0 <= i < plan.len() && plan[i] == y;
        assert(plan.to_multiset().count(y) > 0);
        // every entry of `files` is also in `plan`: otherwise some file f
        // would be kept, and the ordering clause would force y.mtime <=
        // f.mtime although every file other than y is strictly older.
        assert forall|f: CacheFile| #[trigger] files.to_multiset().count(f)
            <= plan.to_multiset().count(f) by {
            if files.to_multiset().count(f) > plan.to_multiset().count(f) {
                assert(files.to_multiset().count(f) > 0);
                assert(files.contains(f));
                let jf = choose|jf: int| 0 <= jf < files.len() && files[jf] == f;
                if f == y {
                    assert(files.to_multiset().count(y) > plan.to_multiset().count(y));
                } else {
                    assert(files[jf].mtime < y.mtime);
                    assert(plan[i].mtime <= f.mtime);
                }
            }
        }
        assert(plan.to_multiset() =~= files.to_multiset());
        lemma_total_permutation(files, plan);
        // y can only sit at the very end of the sorted plan
        assert forall|j: int| 0 <= j < plan.len() && j != i implies #[trigger] plan[j].mtime
            < y.mtime by {
            if plan[j] == y {
                assert(plan.remove(i) =~= plan.remove(i));
                assert(plan.remove(i).to_multiset() =~= plan.to_multiset().remove(y));
                if j < i {
                    assert(plan.remove(i)[j] == y);
                } else {
                    assert(plan.remove(i)[j - 1] == y);
                }
                assert(plan.remove(i).contains(y));
                assert(plan.remove(i).to_multiset().count(y) > 0);
                assert(plan.to_multiset().count(y) >= 2);
                assert(files.to_multiset().count(y) >= 2);
            } else {
                assert(plan.to_multiset().count(plan[j]) > 0);
                assert(files.to_multiset().count(plan[j]) > 0);
                assert(files.contains(plan[j]));
                let jj = choose|jj: int| 0 <= jj < files.len() && files[jj] == plan[j];
                assert(files[jj].mtime < y.mtime);
            }
        }
        assert(i == plan.len() - 1) by {
            if i < plan.len() - 1 {
                assert(plan[i].mtime <= plan[plan.len() - 1].mtime);
                assert(plan[plan.len() - 1].mtime < y.mtime);
            }
        }
        assert(plan.last() == y);
        assert(spec_total(plan) == spec_total(plan.drop_last()) + y.size);
        assert(spec_total(files) - spec_total(plan.drop_last()) > max_bytes);
        assert(y.size > max_bytes);
    }
}

/// The public URL under which a cached file is served.
pub open spec fn spec_file_url(name: Seq<char>) -> Seq<char> {
    "http://localhost:15123/video/files/"@ + name
}

/// The public URL under which a cached file is served.
pub fn file_url(name: &str) -> (r: String)
    ensures
        r@ == spec_file_url(name@),
{
    let mut r = String::from_str("http://localhost:15123/video/files/");
    r.append(name);
    r
}

/// The default cache entry name for a video id: `<id>.webm`.
pub fn default_file_name(video_id: &str) -> (r: String)
    ensures
        r@ == video_id@ + ".webm"@,
{
    let mut r = String::from_str(video_id);
    r.append(".webm");
    r
}

/// Some listed file carries exactly this name.
pub open spec fn spec_has_file(files: Seq<String>, name: Seq<char>) -> bool {
    exists|i: int| 0 <= i < files.len() && (#[trigger] files[i])@ == name
}

/// The fast-path existence test: the default entry `<id>.webm` is among
/// the listed files. The prefix scan of [`find_cache_entry`] stays the
/// authoritative test.
pub fn video_exists(video_id: &str, files: &Vec<String>) -> (r: bool)
    ensures
        r == spec_has_file(files@, video_id@ + ".webm"@),
{
    let exact = default_file_name(video_id);
    let n = files.len();
    let mut i: usize = 0;
    while i < n
        invariant
            n == files@.len(),
            exact@ == video_id@ + ".webm"@,
            i <= n,
            forall|j: int| 0 <= j < i ==> (#[trigger] files@[j])@ != exact@,
        decreases n - i,
    {
        if str_eq(files[i].as_str(), exact.as_str()) {
            assert(files@[i as int]@ == video_id@ + ".webm"@);
            return true;
        }
        i += 1;
    }
    false
}

/// The first listed file whose name begins with the video id; this is the
/// authoritative cache-existence test.
pub fn find_cache_entry(video_id: &str, files: &Vec<String>) -> (r: Option<String>)
    ensures
        match r {
            Some(name) => exists|i: int|
                {
                    &&& 0 <= i < files@.len()
                    &&& name@ == files@[i]@
                    &&& spec_starts_with(files@[i]@, video_id@)
                    &&& forall|j: int|
                        0 <= j < i ==> !spec_starts_with(#[trigger] files@[j]@, video_id@)
                },
            None => forall|i: int|
                0 <= i < files@.len() ==> !spec_starts_with(#[trigger] files@[i]@, video_id@),
        },
{
    let n = files.len();
    let mut i: usize = 0;
    while i < n
        invariant
            n == files@.len(),
            i <= n,
            forall|j: int| 0 <= j < i ==> !spec_starts_with(#[trigger] files@[j]@, video_id@),
        decreases n - i,
    {
        if str_starts_with(files[i].as_str(), video_id) {
            let name = files[i].clone();
            assert(name@ == files@[i as int]@);
            return Some(name);
        }
        i += 1;
    }
    None
}

} // verus!
