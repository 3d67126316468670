use vstd::prelude::*;

verus! {

/// A committee assignment as produced by the backend, at a point in time.
///
/// The adapter treats it as an opaque payload: it is produced and owned by the
/// backend, and the adapter only borrows it long enough to translate it to its
/// wire representation. The adapter never inspects, caches, deduplicates or
/// reorders committees.
pub struct Committee {
    /// The backend-encoded committee value, opaque to the adapter.
    pub payload: Vec<u8>,
}

impl View for Committee {
    type V = Seq<u8>;

    open spec fn view(&self) -> Seq<u8> {
        self.payload@
    }
}

impl Clone for Committee {
    fn clone(&self) -> (r: Self)
        ensures
            r@ == self@,
    {
        let payload = self.payload.clone();
        proof {
            assert(payload@ =~= self.payload@);
        }
        Committee { payload }
    }
}

/// The wire-level representation of one committee, as carried in a unary
/// response or in a stream item.
pub struct WireCommittee {
    /// The committee bytes as they go out on the wire.
    pub encoded: Vec<u8>,
}

impl View for WireCommittee {
    type V = Seq<u8>;

    open spec fn view(&self) -> Seq<u8> {
        self.encoded@
    }
}

/// The adapter's one-way mapping from a backend committee to its wire
/// representation: the opaque payload is carried over verbatim.
pub open spec fn wire_of(payload: Seq<u8>) -> Seq<u8> {
    payload
}

/// Translate one backend committee to its wire representation.
pub fn to_wire(c: &Committee) -> (r: WireCommittee)
    ensures
        r@ == wire_of(c@),
{
    let encoded = c.payload.clone();
    proof {
        assert(encoded@ =~= c.payload@);
    }
    WireCommittee { encoded }
}

} // verus!
