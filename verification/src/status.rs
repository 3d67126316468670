use vstd::prelude::*;

verus! {

/// The two call-status kinds a unary caller can observe on failure.
///
/// Streaming failures are deliberately absorbed (the stream just closes), so
/// no third kind exists.
#[derive(Clone, Copy, Debug, PartialEq, Eq, Structural)]
pub enum StatusCode {
    /// The request could not be turned into a backend invocation.
    InvalidArgument,
    /// The backend call was constructed but failed during execution.
    Internal,
}

/// A terminal failure status for a unary call: a status kind together with a
/// human-readable description flattened from the underlying error.
pub struct RpcStatus {
    /// Which of the two failure kinds this is.
    pub code: StatusCode,
    /// The underlying error's description; no structured error detail crosses
    /// the boundary from backend to client.
    pub message: String,
}

/// An error reported by the backend while executing a call.
pub struct BackendError {
    /// A human-readable description of the backend failure.
    pub description: String,
}

impl View for BackendError {
    type V = Seq<char>;

    open spec fn view(&self) -> Seq<char> {
        self.description@
    }
}

impl Clone for BackendError {
    fn clone(&self) -> (r: Self)
        ensures
            r@ == self@,
    {
        BackendError { description: self.description.clone() }
    }
}

} // verus!
