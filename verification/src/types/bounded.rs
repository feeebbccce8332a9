//! The bounded list in which the votes of a ledger are handed out.
use crate::types::vote::{PotVote, MAX_VOTE_NUM};
use bounded_collections::{BoundedVec, ConstU32};
use vstd::prelude::*;

verus! {

/// `BoundedVec` of `bounded_collections`: a list that never holds more
/// items than its bound. Nothing of its inside is assumed.
#[verifier::external_type_specification]
#[verifier::external_body]
#[verifier::reject_recursive_types(T)]
#[verifier::reject_recursive_types(S)]
pub struct ExBoundedVec<T, S>(BoundedVec<T, S>);

/// `ConstU32` of `bounded_collections`: the bound `N`, as a type.
#[verifier::external_type_specification]
#[verifier::external_body]
pub struct ExConstU32<const N: u32>(ConstU32<N>);

/// The votes of a ledger as a list that holds `MAX_VOTE_NUM` votes at most.
pub type PotVotesResult = BoundedVec<PotVote, ConstU32<MAX_VOTE_NUM>>;

/// The votes that a bounded list holds, first to last: what
/// `BoundedVec::into_inner` gives.
pub uninterp spec fn bounded_votes(list: PotVotesResult) -> Seq<PotVote>;

/// `BoundedVec::try_from` of `bounded_collections`: a list of no more votes
/// than the bound becomes the bounded list of the same votes in the same
/// order; a longer one comes back unchanged as the error.
#[verifier::external_body]
pub(crate) fn try_bound_votes(votes: Vec<PotVote>) -> (bounded: Result<PotVotesResult, Vec<PotVote>>)
    ensures
        bounded is Ok <==> votes@.len() <= MAX_VOTE_NUM,
        bounded matches Ok(list) ==> bounded_votes(list) == votes@,
        bounded matches Err(rest) ==> rest == votes,
{
    PotVotesResult::try_from(votes)
}

} // verus!
