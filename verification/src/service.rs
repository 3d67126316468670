use vstd::prelude::*;

use crate::committee::Committee;
use crate::contract::{build_contract_ref, ContractRef};
use crate::status::BackendError;
use crate::unary::{
    construction_failure_outcome, outcome_of, resolution_outcome, resolution_view,
    CommitteeRequest, UnaryOutcome,
};
use crate::watch::{WatchCall, WatchEvent, WatchRequest};

verus! {

/// One subscription to the backend's live feed of committee changes: an
/// unbounded, non-restartable sequence, pulled one event at a time.
///
/// Nothing is promised of what it yields — the sequence depends on the
/// backend and on time, and a new subscriber sees only future changes. The
/// adapter therefore states what it does with every possible event instead.
pub trait CommitteeFeed {
    /// Pull the next event: a committee change, the end of the backend's
    /// sequence, or a failure of the stream or of the transport forwarding.
    fn next_event(&mut self) -> (ev: WatchEvent);
}

/// The backend capability the adapter is parameterized over: a committee
/// scheduler that resolves the committees of a contract and produces a live
/// feed of committee changes. The scheduling logic itself lives behind this
/// trait; the adapter only translates its results.
pub trait Scheduler: Sized {
    /// The feed type this backend's watch capability hands out.
    type Updates: CommitteeFeed;

    /// What this backend resolves a contract identifier to: the committee
    /// payloads it returns, in its own order, or the description of the
    /// error it fails with. Each implementation says here what its
    /// resolution is; the executable capability is held to it.
    spec fn resolve_spec(&self, contract_id: Seq<u8>) -> Result<Seq<Seq<u8>>, Seq<char>>;

    /// Resolve the committees for one contract.
    fn resolve_committees(&self, contract: &ContractRef) -> (r: Result<
        Vec<Committee>,
        BackendError,
    >)
        ensures
            resolution_view(r) == self.resolve_spec(contract@),
    ;

    /// Open a fresh subscription to this backend's committee changes.
    fn watch_committees(&self) -> (feed: Self::Updates);
}

/// The adapter: receives inbound calls, builds the backend-facing request,
/// invokes the one backend bound at construction, and translates results and
/// errors into wire responses and statuses. It holds no other state — each
/// call runs independently, and the backend is shared read-only across all
/// of them.
pub struct SchedulerService<T: Scheduler> {
    inner: T,
}

impl<T: Scheduler> SchedulerService<T> {
    /// The backend bound at construction, for the adapter's whole lifetime.
    pub closed spec fn backend(&self) -> T {
        self.inner
    }

    /// Bind exactly one backend. No validation is performed on it here;
    /// failures surface only when a call is made.
    pub fn new(backend: T) -> (s: Self)
        ensures
            s.backend() == backend,
    {
        SchedulerService { inner: backend }
    }

    /// Unary call: resolve the committees of the contract named by the
    /// request.
    ///
    /// The identifier bytes are copied verbatim into a backend-facing
    /// contract reference; the backend is invoked; on success every committee
    /// is translated to its wire form, order preserved, and on failure the
    /// backend error becomes an internal-failure status. Were the request
    /// ever to fail construction, it would become an invalid-argument status
    /// with the backend never invoked. Exactly one terminal outcome comes
    /// back, for every request and every backend answer.
    pub fn get_committees(&self, req: &CommitteeRequest) -> (r: UnaryOutcome)
        ensures
            r@ == outcome_of(self.backend().resolve_spec(req.contract_id@)),
    {
        match build_contract_ref(&req.contract_id) {
            Ok(contract) => {
                let res = self.inner.resolve_committees(&contract);
                resolution_outcome(res)
            },
            Err(e) => construction_failure_outcome(e),
        }
    }

    /// Streaming call: subscribe to the backend's committee changes.
    ///
    /// The request carries no parameters and is ignored. The adapter hands
    /// back the backend's fresh subscription together with a fresh per-call
    /// forwarding state; the host drives them by pulling each event and
    /// performing the action `WatchCall::on_event` decides. Each call gets
    /// its own pair, so concurrent watchers never share forwarding state.
    pub fn watch_committees(&self, _req: &WatchRequest) -> (r: (T::Updates, WatchCall))
        ensures
            r.1.phase is NotStarted,
            r.1.emitted@ == Seq::<Seq<u8>>::empty(),
    {
        (self.inner.watch_committees(), WatchCall::new())
    }
}

} // verus!
