use vstd::prelude::*;

use crate::committee::{wire_of, to_wire, Committee, WireCommittee};
use crate::contract::BuildError;
use crate::status::{BackendError, RpcStatus, StatusCode};

verus! {

/// An inbound unary request: the raw contract identifier whose committees the
/// caller asks for.
pub struct CommitteeRequest {
    /// The raw contract identifier bytes, forwarded verbatim to the backend.
    pub contract_id: Vec<u8>,
}

/// The unary response payload: the backend's committees, translated to their
/// wire representation, in the exact order the backend produced them.
pub struct CommitteeSnapshot {
    /// The wire translations, order preserved from backend output.
    pub committees: Vec<WireCommittee>,
}

impl View for CommitteeSnapshot {
    type V = Seq<Seq<u8>>;

    open spec fn view(&self) -> Seq<Seq<u8>> {
        self.committees@.map_values(|w: WireCommittee| w@)
    }
}

/// The one terminal answer of a unary call: either a populated snapshot or a
/// single failure status — never both, never neither.
pub enum UnaryOutcome {
    /// The call succeeded; the snapshot goes back to the caller.
    Success(CommitteeSnapshot),
    /// The call failed; the status goes back to the caller.
    Failure(RpcStatus),
}

/// The mathematical shape of a unary outcome: the wire payloads of a
/// successful snapshot, or the status kind and message of a failure.
pub enum UnaryOutcomeView {
    Success(Seq<Seq<u8>>),
    Failure(StatusCode, Seq<char>),
}

impl View for UnaryOutcome {
    type V = UnaryOutcomeView;

    open spec fn view(&self) -> UnaryOutcomeView {
        match self {
            UnaryOutcome::Success(snapshot) => UnaryOutcomeView::Success(snapshot@),
            UnaryOutcome::Failure(status) => UnaryOutcomeView::Failure(
                status.code,
                status.message@,
            ),
        }
    }
}

/// The payloads of a sequence of backend committees.
pub open spec fn committees_view(cs: Seq<Committee>) -> Seq<Seq<u8>> {
    cs.map_values(|c: Committee| c@)
}

/// What a backend resolution result amounts to: the committee payloads on
/// success, the error description on failure.
pub open spec fn resolution_view(res: Result<Vec<Committee>, BackendError>) -> Result<
    Seq<Seq<u8>>,
    Seq<char>,
> {
    match res {
        Ok(committees) => Ok(committees_view(committees@)),
        Err(e) => Err(e@),
    }
}

/// The adapter's unary answer for each backend resolution: the wire
/// translations in backend order on success, an internal-failure status
/// carrying the backend's error description on failure.
pub open spec fn outcome_of(res: Result<Seq<Seq<u8>>, Seq<char>>) -> UnaryOutcomeView {
    match res {
        Ok(cs) => UnaryOutcomeView::Success(cs.map_values(|c: Seq<u8>| wire_of(c))),
        Err(description) => UnaryOutcomeView::Failure(StatusCode::Internal, description),
    }
}

/// Turn a completed backend resolution into the unary outcome sent to the
/// caller: translate each committee in order, or map the backend error to an
/// internal-failure status.
pub fn resolution_outcome(res: Result<Vec<Committee>, BackendError>) -> (r: UnaryOutcome)
    ensures
        r@ == outcome_of(resolution_view(res)),
{
    match res {
        Ok(committees) => {
            let mut wires: Vec<WireCommittee> = Vec::new();
            let mut i: usize = 0;
            while i < committees.len()
                invariant
                    i <= committees.len(),
                    wires@.len() == i as int,
                    forall|j: int| 0 <= j < i as int ==> wires@[j]@ == wire_of(committees@[j]@),
                decreases committees.len() - i,
            {
                wires.push(to_wire(&committees[i]));
                i += 1;
            }
            let snapshot = CommitteeSnapshot { committees: wires };
            proof {
                assert(snapshot@ =~= committees_view(committees@).map_values(
                    |c: Seq<u8>| wire_of(c),
                ));
            }
            UnaryOutcome::Success(snapshot)
        },
        Err(e) => UnaryOutcome::Failure(
            RpcStatus { code: StatusCode::Internal, message: e.description },
        ),
    }
}

/// Turn a request-construction error into the unary outcome sent to the
/// caller: an invalid-argument status carrying the construction error's
/// description. This path is taken before any backend call is formed, so the
/// backend is never invoked for such a request.
pub fn construction_failure_outcome(e: BuildError) -> (r: UnaryOutcome)
    ensures
        r@ == UnaryOutcomeView::Failure(StatusCode::InvalidArgument, e@),
{
    UnaryOutcome::Failure(RpcStatus { code: StatusCode::InvalidArgument, message: e.description })
}

/// Law: a successful resolution of committees `cs` yields a snapshot whose
/// elements, in order, are the wire translations of `cs` — order preserved,
/// count preserved.
pub proof fn lemma_snapshot_preserves_backend_order(cs: Seq<Seq<u8>>)
    ensures
        outcome_of(Ok(cs)) matches UnaryOutcomeView::Success(ws) && ws.len() == cs.len() && (
        forall|i: int| 0 <= i < cs.len() ==> ws[i] == wire_of(cs[i])),
{
}

/// Law: a failed resolution yields an internal-failure status whose message
/// is exactly the backend error's description, and no snapshot.
pub proof fn lemma_backend_failure_is_internal(description: Seq<char>)
    ensures
        outcome_of(Err(description)) == UnaryOutcomeView::Failure(
            StatusCode::Internal,
            description,
        ),
{
}

/// Law: an empty resolution is a success with an empty committee sequence,
/// not an error.
pub proof fn lemma_empty_resolution_is_empty_snapshot(cs: Seq<Seq<u8>>)
    requires
        cs.len() == 0,
    ensures
        outcome_of(Ok(cs)) matches UnaryOutcomeView::Success(ws) && ws.len() == 0,
{
}

} // verus!
