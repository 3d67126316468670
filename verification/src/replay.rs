use vstd::prelude::*;

use crate::committee::Committee;
use crate::contract::ContractRef;
use crate::service::{CommitteeFeed, Scheduler};
use crate::status::BackendError;
use crate::unary::{committees_view, resolution_view};
use crate::watch::WatchEvent;

verus! {

/// An in-process backend with a fixed script: it resolves every contract to
/// the same stored outcome and replays a stored change feed to each
/// subscriber. It lets a host or a test drive the adapter without a live
/// scheduling engine, and it is the kind of concrete backend the adapter's
/// backend trait is meant for.
pub struct ReplayScheduler {
    /// The committees every resolution returns, in order, when it succeeds.
    pub committees: Vec<Committee>,
    /// When set, every resolution fails with this error instead.
    pub resolve_failure: Option<BackendError>,
    /// The committee changes each fresh subscription replays, in order.
    pub feed_updates: Vec<Committee>,
    /// When set, each subscription ends with this failure after its updates;
    /// otherwise it ends cleanly.
    pub feed_failure: Option<BackendError>,
}

impl Scheduler for ReplayScheduler {
    type Updates = ReplayFeed;

    open spec fn resolve_spec(&self, contract_id: Seq<u8>) -> Result<Seq<Seq<u8>>, Seq<char>> {
        match self.resolve_failure {
            Some(e) => Err(e@),
            None => Ok(committees_view(self.committees@)),
        }
    }

    fn resolve_committees(&self, contract: &ContractRef) -> (r: Result<
        Vec<Committee>,
        BackendError,
    >) {
        match &self.resolve_failure {
            Some(e) => Err(e.clone()),
            None => {
                let committees = self.committees.clone();
                proof {
                    assert(committees_view(committees@) =~= committees_view(self.committees@));
                }
                Ok(committees)
            },
        }
    }

    fn watch_committees(&self) -> (feed: ReplayFeed) {
        let failure = match &self.feed_failure {
            Some(e) => Some(e.clone()),
            None => None,
        };
        ReplayFeed { updates: self.feed_updates.clone(), failure, next: 0 }
    }
}

/// A subscription handed out by a `ReplayScheduler`: it yields the stored
/// updates in order, then its terminal event — a failure where one was
/// scripted, the clean end of the sequence otherwise — over and over.
pub struct ReplayFeed {
    /// The committee changes still to be replayed, from `next` on.
    pub updates: Vec<Committee>,
    /// The scripted terminal failure, if any.
    pub failure: Option<BackendError>,
    /// How many updates have been yielded already.
    pub next: usize,
}

impl CommitteeFeed for ReplayFeed {
    fn next_event(&mut self) -> (ev: WatchEvent)
        ensures
            old(self).next < old(self).updates@.len() ==> (ev matches WatchEvent::Update(c)
                && c@ == old(self).updates@[old(self).next as int]@ && final(self).next == old(
                self,
            ).next + 1),
            old(self).next >= old(self).updates@.len() ==> final(self).next == old(self).next && (
            match old(self).failure {
                Some(e) => ev matches WatchEvent::Failed(f) && f@ == e@,
                None => ev is End,
            }),
            final(self).updates@ == old(self).updates@,
            final(self).failure == old(self).failure,
    {
        if self.next < self.updates.len() {
            let c = self.updates[self.next].clone();
            self.next = self.next + 1;
            WatchEvent::Update(c)
        } else {
            match &self.failure {
                Some(e) => WatchEvent::Failed(e.clone()),
                None => WatchEvent::End,
            }
        }
    }
}

} // verus!
