//! The in-flight registry: deduplicates concurrent acquisitions per video
//! id. Each live acquisition owns a ticket naming its broadcast channel;
//! between insert and removal every request for the same id joins that
//! same ticket.

use vstd::prelude::*;

use crate::text::str_eq;

verus! {

/// A live acquisition: its video id and the ticket of its broadcast.
pub struct InFlightEntry {
    pub video_id: String,
    pub ticket: u64,
}

/// What a request for an id is to do: join the broadcast named by the
/// ticket, or launch a fresh acquisition task publishing under it.
#[derive(Clone, Copy, Debug, PartialEq, Eq, Structural)]
pub enum SubscribeAction {
    Subscribe { ticket: u64 },
    Launch { ticket: u64 },
}

/// Deduplicates concurrent requests per video id: the first request for
/// an absent id launches an acquisition, every further request while it
/// is live joins the same broadcast.
pub struct DownloadCoordinator {
    pub in_progress: Vec<InFlightEntry>,
    pub next_ticket: u64,
}

impl DownloadCoordinator {
    /// Registry invariant: at most one live entry per id, and tickets stay
    /// below the allocator.
    pub open spec fn wf(&self) -> bool {
        &&& forall|i: int, j: int|
            0 <= i < j < self.in_progress@.len() ==> #[trigger] self.in_progress@[i].video_id@
                != #[trigger] self.in_progress@[j].video_id@
        &&& forall|i: int|
            0 <= i < self.in_progress@.len() ==> #[trigger] self.in_progress@[i].ticket
                < self.next_ticket
    }

    /// There is a live acquisition for `id` under ticket `t`.
    pub open spec fn spec_has_entry(&self, id: Seq<char>, t: u64) -> bool {
        exists|i: int|
            0 <= i < self.in_progress@.len() && #[trigger] self.in_progress@[i].video_id@ == id
                && self.in_progress@[i].ticket == t
    }

    /// There is a live acquisition for `id`.
    pub open spec fn spec_in_flight(&self, id: Seq<char>) -> bool {
        exists|i: int|
            0 <= i < self.in_progress@.len() && #[trigger] self.in_progress@[i].video_id@ == id
    }

    /// An empty registry.
    pub fn new() -> (c: DownloadCoordinator)
        ensures
            c.wf(),
            c.in_progress@.len() == 0,
            c.next_ticket == 0u64,
            forall|id: Seq<char>| !c.spec_in_flight(id),
    {
        DownloadCoordinator { in_progress: Vec::new(), next_ticket: 0 }
    }

    /// Handles one request: joins the live acquisition for `video_id` if
    /// there is one (registry unchanged), else registers a fresh ticket
    /// and asks the caller to launch the acquisition task.
    pub fn start_or_subscribe(&mut self, video_id: &str) -> (a: SubscribeAction)
        requires
            old(self).wf(),
            old(self).next_ticket < u64::MAX,
        ensures
            final(self).wf(),
            match a {
                SubscribeAction::Subscribe { ticket } => {
                    &&& *final(self) == *old(self)
                    &&& old(self).spec_has_entry(video_id@, ticket)
                },
                SubscribeAction::Launch { ticket } => {
                    &&& !old(self).spec_in_flight(video_id@)
                    &&& ticket == old(self).next_ticket
                    &&& final(self).next_ticket == old(self).next_ticket + 1
                    &&& final(self).spec_has_entry(video_id@, ticket)
                    &&& final(self).in_progress@.len() == old(self).in_progress@.len() + 1
                    &&& forall|id2: Seq<char>, t2: u64|
                        #[trigger] old(self).spec_has_entry(id2, t2) ==> final(self).spec_has_entry(
                            id2,
                            t2,
                        )
                    &&& forall|id2: Seq<char>, t2: u64|
                        #[trigger] final(self).spec_has_entry(id2, t2) ==> old(self).spec_has_entry(
                            id2,
                            t2,
                        ) || (id2 == video_id@ && t2 == ticket)
                },
            },
    {
        let n = self.in_progress.len();
        let mut i: usize = 0;
        while i < n
            invariant
                *self == *old(self),
                old(self).wf(),
                old(self).next_ticket < u64::MAX,
                n == self.in_progress@.len(),
                i <= n,
                forall|j: int|
                    0 <= j < i ==> #[trigger] self.in_progress@[j].video_id@ != video_id@,
            decreases n - i,
        {
            if str_eq(self.in_progress[i].video_id.as_str(), video_id) {
                assert(self.in_progress@[i as int].video_id@ == video_id@);
                return SubscribeAction::Subscribe { ticket: self.in_progress[i].ticket };
            }
            i += 1;
        }
        let ticket = self.next_ticket;
        self.next_ticket = self.next_ticket + 1;
        self.in_progress.push(
            InFlightEntry { video_id: String::from_str(video_id), ticket },
        );
        proof {
            let olds = old(self).in_progress@;
            let news = self.in_progress@;
            assert(news.last().video_id@ == video_id@);
            assert forall|id2: Seq<char>, t2: u64| #[trigger]
                old(self).spec_has_entry(id2, t2) implies self.spec_has_entry(id2, t2) by {
                let j = choose|j: int|
                    0 <= j < olds.len() && #[trigger] olds[j].video_id@ == id2 && olds[j].ticket
                        == t2;
                assert(news[j].video_id@ == id2);
            }
            assert forall|id2: Seq<char>, t2: u64|
                #[trigger] self.spec_has_entry(id2, t2) && !(id2 == video_id@ && t2 == ticket)
                    implies old(self).spec_has_entry(id2, t2) by {
                let k = choose|k: int|
                    0 <= k < news.len() && #[trigger] news[k].video_id@ == id2 && news[k].ticket
                        == t2;
                assert(k < olds.len());
                assert(olds[k].video_id@ == id2);
            }
        }
        SubscribeAction::Launch { ticket }
    }

    /// Removes the entry for `video_id` when its acquisition task exits;
    /// every other live acquisition is untouched.
    pub fn mark_done(&mut self, video_id: &str)
        requires
            old(self).wf(),
        ensures
            final(self).wf(),
            final(self).next_ticket == old(self).next_ticket,
            !final(self).spec_in_flight(video_id@),
            forall|id2: Seq<char>, t2: u64|
                id2 != video_id@ ==> (#[trigger] final(self).spec_has_entry(id2, t2) <==> old(
                    self,
                ).spec_has_entry(id2, t2)),
    {
        let ghost orig = *old(self);
        let n = self.in_progress.len();
        let mut i: usize = 0;
        while i < n
            invariant
                *self == orig,
                orig == *old(self),
                orig.wf(),
                n == self.in_progress@.len(),
                i <= n,
                forall|j: int|
                    0 <= j < i ==> #[trigger] self.in_progress@[j].video_id@ != video_id@,
            decreases n - i,
        {
            if str_eq(self.in_progress[i].video_id.as_str(), video_id) {
                assert(orig.in_progress@[i as int].video_id@ == video_id@);
                self.in_progress.remove(i);
                proof {
                    let ii = i as int;
                    let news = self.in_progress@;
                    let olds = orig.in_progress@;
                    assert(news == olds.remove(ii));
                    assert forall|a: int, b: int| 0 <= a < b < news.len() implies #[trigger]
                        news[a].video_id@ != #[trigger] news[b].video_id@ by {
                        let a0 = if a < ii { a } else { a + 1 };
                        let b0 = if b < ii { b } else { b + 1 };
                        assert(news[a] == olds[a0]);
                        assert(news[b] == olds[b0]);
                    }
                    assert forall|k: int| 0 <= k < news.len() implies #[trigger]
                        news[k].video_id@ != video_id@ by {
                        let k0 = if k < ii { k } else { k + 1 };
                        assert(news[k] == olds[k0]);
                        if k0 != ii && news[k].video_id@ == video_id@ {
                            if k0 < ii {
                                assert(olds[k0].video_id@ != olds[ii].video_id@);
                            } else {
                                assert(olds[ii].video_id@ != olds[k0].video_id@);
                            }
                        }
                    }
                    assert forall|id2: Seq<char>, t2: u64|
                        id2 != video_id@ && #[trigger] orig.spec_has_entry(id2, t2)
                            implies self.spec_has_entry(id2, t2) by {
                        let j = choose|j: int|
                            0 <= j < olds.len() && #[trigger] olds[j].video_id@ == id2
                                && olds[j].ticket == t2;
                        if j < ii {
                            assert(news[j] == olds[j]);
                        } else {
                            assert(news[j - 1] == olds[j]);
                        }
                    }
                    assert forall|id2: Seq<char>, t2: u64|
                        id2 != video_id@ && #[trigger] self.spec_has_entry(id2, t2)
                            implies orig.spec_has_entry(id2, t2) by {
                        let k = choose|k: int|
                            0 <= k < news.len() && #[trigger] news[k].video_id@ == id2
                                && news[k].ticket == t2;
                        let k0 = if k < ii { k } else { k + 1 };
                        assert(news[k] == olds[k0]);
                    }
                }
                return ;
            }
            i += 1;
        }
    }
}

/// Single-flight: while an acquisition for an id is live, its ticket is
/// the only one for that id, so every concurrent request joins the same
/// broadcast and at most one extractor process is ever launched per id.
pub proof fn lemma_single_flight(c: DownloadCoordinator, id: Seq<char>, t1: u64, t2: u64)
    requires
        c.wf(),
        c.spec_has_entry(id, t1),
        c.spec_has_entry(id, t2),
    ensures
        t1 == t2,
{
    let i = choose|i: int|
        0 <= i < c.in_progress@.len() && #[trigger] c.in_progress@[i].video_id@ == id
            && c.in_progress@[i].ticket == t1;
    let j = choose|j: int|
        0 <= j < c.in_progress@.len() && #[trigger] c.in_progress@[j].video_id@ == id
            && c.in_progress@[j].ticket == t2;
    if i != j {
        assert(c.in_progress@[i].video_id@ != c.in_progress@[j].video_id@);
    }
}

} // verus!
