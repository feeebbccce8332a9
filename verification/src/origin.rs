//! Who asks for an administrative operation.
use crate::types::account::VoteAccountId;
use vstd::prelude::*;

verus! {

/// Where a call comes from.
#[derive(Clone, Copy, Debug)]
pub enum RawOrigin {
    /// Governance: the one origin that may administer the pallets.
    Root,
    /// An account that signed the call.
    Signed(VoteAccountId),
    /// Nobody: an unsigned call.
    Unsigned,
}

/// The call does not come from the origin that the operation asks for.
#[derive(Clone, Copy, Debug, PartialEq, Eq, Structural)]
pub struct BadOrigin;

/// Passes the root origin and no other.
pub fn ensure_root(origin: &RawOrigin) -> (outcome: Result<(), BadOrigin>)
    ensures
        outcome is Ok <==> *origin is Root,
{
    match origin {
        RawOrigin::Root => Ok(()),
        _ => Err(BadOrigin),
    }
}

} // verus!
