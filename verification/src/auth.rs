use vstd::prelude::*;

verus! {

/// A verifiable identity: an account or contract reference. The
/// surrounding host resolves real addresses; inside the library a
/// principal is just its numeric identity.
#[derive(Clone, Copy, Debug, PartialEq, Eq, Structural)]
pub struct Principal(pub u64);

/// Proof that an external authority has verified that the caller
/// controls `principal` for the current invocation. The library never
/// fabricates one; callers obtain it from the host and pass it in.
#[derive(Clone, Copy, Debug, PartialEq, Eq, Structural)]
pub struct AuthProof {
    pub principal: Principal,
}

/// A scoped delegation: `grantor` permits exactly one downstream call,
/// the registry `target`'s sale execution with precisely these
/// arguments. No further sub-delegation is possible.
#[derive(Clone, Copy, Debug, PartialEq, Eq, Structural)]
pub struct SaleGrant {
    pub grantor: Principal,
    pub target: Principal,
    pub seller: Principal,
    pub buyer: Principal,
    pub asset_id: u64,
    pub quantity: i128,
}

} // verus!
