//! Identity of a vote candidate.
use vstd::prelude::*;

verus! {

/// A 32-byte account identifier: the candidate a vote is cast for.
///
/// Two identifiers are equal when their bytes are; they are ordered as their
/// bytes are, from the first byte on.
#[derive(Clone, Copy, Debug, Eq, PartialOrd, Ord, Hash)]
pub struct VoteAccountId {
    bytes: [u8; 32],
}

impl View for VoteAccountId {
    type V = Seq<u8>;

    closed spec fn view(&self) -> Seq<u8> {
        self.bytes@
    }
}

impl VoteAccountId {
    /// The account with the given bytes.
    pub fn new(bytes: [u8; 32]) -> (account: Self)
        ensures
            account@ == bytes@,
    {
        Self { bytes }
    }

    /// The bytes of the account.
    pub fn to_bytes(&self) -> (bytes: [u8; 32])
        ensures
            bytes@ == self@,
    {
        self.bytes
    }

    /// Accounts with the same bytes are the same account.
    pub broadcast proof fn lemma_view_injective(a: Self, b: Self)
        requires
            #[trigger] a@ == #[trigger] b@,
        ensures
            a == b,
    {
        assert(a.bytes@ =~= b.bytes@);
        assert(a.bytes == b.bytes);
    }
}

impl PartialEq for VoteAccountId {
    fn eq(&self, other: &Self) -> (same: bool) {
        let mut i: usize = 0;
        while i < 32
            invariant
                i <= 32,
                forall|j: int| 0 <= j < i ==> self.bytes@[j] == other.bytes@[j],
            decreases 32 - i,
        {
            if self.bytes[i] != other.bytes[i] {
                return false;
            }
            i = i + 1;
        }
        proof {
            assert(self.bytes@ =~= other.bytes@);
            assert(self.bytes == other.bytes);
        }
        true
    }
}

impl vstd::std_specs::cmp::PartialEqSpecImpl for VoteAccountId {
    open spec fn obeys_eq_spec() -> bool {
        true
    }

    open spec fn eq_spec(&self, other: &Self) -> bool {
        *self == *other
    }
}

} // verus!
