use vstd::prelude::*;

verus! {

/// The backend-facing name of a contract: an identifier byte string copied
/// verbatim from the caller's request.
///
/// Only the identifier is populated. Other contract metadata is deliberately
/// left unset by the adapter — filling it in (for instance from a registry)
/// is an explicit boundary decision that does not belong here.
pub struct ContractRef {
    /// The raw contract identifier as supplied by the caller.
    pub id: Vec<u8>,
}

impl View for ContractRef {
    type V = Seq<u8>;

    open spec fn view(&self) -> Seq<u8> {
        self.id@
    }
}

/// An error raised while turning an inbound request into a backend
/// invocation, before any backend call is made.
pub struct BuildError {
    /// A human-readable description of what could not be built.
    pub description: String,
}

impl View for BuildError {
    type V = Seq<char>;

    open spec fn view(&self) -> Seq<char> {
        self.description@
    }
}

/// Build the backend-facing contract reference for one unary request.
///
/// The identifier bytes are copied verbatim; the adapter performs no length or
/// format validation (malformed input is the backend's to reject). The step is
/// kept in a builder of its own so the shape of the boundary can be revisited
/// without touching the call handling. Today it accepts every byte string, so
/// it always returns `Ok`; the error side is the seam through which a failed
/// construction would surface as an invalid-argument status.
pub fn build_contract_ref(contract_id: &Vec<u8>) -> (r: Result<ContractRef, BuildError>)
    ensures
        r matches Ok(c) && c@ == contract_id@,
{
    let id = contract_id.clone();
    proof {
        assert(id@ =~= contract_id@);
    }
    Ok(ContractRef { id })
}

} // verus!
