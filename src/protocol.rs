//! Logical messaging patterns and the native identifiers they stand for.
use vstd::prelude::*;

verus! {

/// The one address family that the native library defines for its sockets.
pub const AF_SP: i32 = 1;

/// Native identifier of the request side of request/reply.
pub const NN_REQ: i32 = 48;

/// Native identifier of the reply side of request/reply.
pub const NN_REP: i32 = 49;

/// Native identifier of the sending side of a pipeline.
pub const NN_PUSH: i32 = 80;

/// Native identifier of the receiving side of a pipeline.
pub const NN_PULL: i32 = 81;

/// Type-safe protocols that the native library implements. Each socket is
/// bound to a single protocol, which fixes what it may be used for (a pull
/// socket only receives, a push socket only sends).
#[derive(Debug, Clone, Copy, PartialEq, Eq, Structural)]
pub enum Protocol {
    Req,
    Rep,
    Push,
    Pull,
}

/// The native identifier of each protocol.
pub open spec fn spec_native_id(p: Protocol) -> i32 {
    match p {
        Protocol::Req => NN_REQ,
        Protocol::Rep => NN_REP,
        Protocol::Push => NN_PUSH,
        Protocol::Pull => NN_PULL,
    }
}

impl Protocol {
    /// The identifier that the native "create socket" call takes for this
    /// protocol. The mapping is total and one to one.
    pub fn native_id(self) -> (r: i32)
        ensures
            r == spec_native_id(self),
    {
        match self {
            Protocol::Req => NN_REQ,
            Protocol::Rep => NN_REP,
            Protocol::Push => NN_PUSH,
            Protocol::Pull => NN_PULL,
        }
    }
}

/// Distinct protocols have distinct native identifiers, so the native
/// identifier a socket was created with determines its protocol.
pub proof fn lemma_native_id_injective(p: Protocol, q: Protocol)
    ensures
        spec_native_id(p) == spec_native_id(q) <==> p == q,
{
}

} // verus!
