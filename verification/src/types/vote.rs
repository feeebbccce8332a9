//! Single votes and the ledger that accumulates them.
use crate::types::account::VoteAccountId;
use crate::types::bounded::{bounded_votes, try_bound_votes, PotVotesResult};
use crate::types::token::SystemTokenId;
use crate::voting_status::{
    at_least, candidate_of, first_k_at_least, has_weight, lemma_filter_all_or_none,
    lemma_sort_desc_len, lemma_sort_desc_sorted, lemma_sort_desc_stable, lemma_top_of_sorted,
    saturating_sum, sort_desc, sorted_desc, VotePoint, VotingStatus,
};
use vstd::prelude::*;

verus! {

/// Accumulated vote weight. All arithmetic on it saturates.
pub type VoteWeight = u128;

/// Identifier of the asset a vote was paid in.
pub type VoteAssetId = u32;

/// The number of distinct (token, candidate) pairs a ledger holds at most.
pub const MAX_VOTE_NUM: u32 = 16 * 1024;

/// The weight that one candidate has received in one system token.
#[derive(Clone, Copy, Debug, PartialEq, Eq, Hash)]
pub struct PotVote {
    /// The token the fees were paid in.
    pub system_token_id: SystemTokenId,
    /// The candidate voted for.
    pub account_id: VoteAccountId,
    /// The accumulated weight.
    pub vote_weight: VoteWeight,
}

impl PotVote {
    /// The vote of `vote_weight` for `account_id`, paid in `system_token_id`.
    pub fn new(
        system_token_id: SystemTokenId,
        account_id: VoteAccountId,
        vote_weight: VoteWeight,
    ) -> (vote: Self)
        ensures
            vote == (PotVote { system_token_id, account_id, vote_weight }),
    {
        Self { system_token_id, account_id, vote_weight }
    }
}

/// A new pair was turned away because the ledger is full.
#[derive(Clone, Copy, Debug, PartialEq, Eq, Structural)]
pub struct StaleVote;

/// Entry `i` of `s` is the entry of `who` in `token`.
pub open spec fn is_entry_of(s: Seq<PotVote>, token: SystemTokenId, who: VoteAccountId, i: int) -> bool {
    0 <= i < s.len() && s[i].system_token_id == token && s[i].account_id == who
}

/// `s` has an entry of `who` in `token`.
pub open spec fn has_entry(s: Seq<PotVote>, token: SystemTokenId, who: VoteAccountId) -> bool {
    exists|i: int| is_entry_of(s, token, who, i)
}

/// Where the entry of `who` in `token` stands in `s`.
pub open spec fn entry_index(s: Seq<PotVote>, token: SystemTokenId, who: VoteAccountId) -> int {
    choose|i: int| is_entry_of(s, token, who, i)
}

/// No two entries of `s` are of the same candidate in the same token.
pub open spec fn distinct_keys(s: Seq<PotVote>) -> bool {
    forall|i: int, j: int|
        0 <= i < j < s.len() ==> !(s[i].system_token_id == s[j].system_token_id && s[i].account_id
            == s[j].account_id)
}

/// The weight that `who` holds in `token`, if it holds any.
pub open spec fn weight_of(s: Seq<PotVote>, token: SystemTokenId, who: VoteAccountId) -> Option<
    VoteWeight,
> {
    if has_entry(s, token, who) {
        Some(s[entry_index(s, token, who)].vote_weight)
    } else {
        None
    }
}

/// Whether a vote for `who` in `token` finds room in `s`: its pair has an
/// entry already, or the ledger is not full.
pub open spec fn accepts(s: Seq<PotVote>, token: SystemTokenId, who: VoteAccountId) -> bool {
    has_entry(s, token, who) || s.len() < MAX_VOTE_NUM
}

/// The entries after `delta` was voted for `who` in `token`: added,
/// saturating, to the pair's entry; or a new last entry where the pair has
/// none and the ledger is not full; or nothing changed.
pub open spec fn accumulate(
    s: Seq<PotVote>,
    token: SystemTokenId,
    who: VoteAccountId,
    delta: VoteWeight,
) -> Seq<PotVote> {
    if has_entry(s, token, who) {
        let i = entry_index(s, token, who);
        s.update(
            i,
            PotVote {
                system_token_id: token,
                account_id: who,
                vote_weight: saturating_sum(s[i].vote_weight as int, delta as int) as u128,
            },
        )
    } else if s.len() < MAX_VOTE_NUM {
        s.push(PotVote { system_token_id: token, account_id: who, vote_weight: delta })
    } else {
        s
    }
}

/// The candidate and the weight of a vote.
pub open spec fn point_of() -> spec_fn(PotVote) -> VotePoint {
    |v: PotVote| (v.account_id, v.vote_weight)
}

/// The candidates of the `k` heaviest entries, at most, that hold at least
/// `min_threshold`: heaviest first, entries of equal weight in the order of
/// `s`.
pub open spec fn top_k_of(s: Seq<PotVote>, k: int, min_threshold: VoteWeight) -> Seq<VoteAccountId> {
    first_k_at_least(sort_desc(s.map_values(point_of())), k, min_threshold)
}

/// The entries after each of `deltas` in turn was voted for `who` in
/// `token`.
pub open spec fn accumulate_all(
    s: Seq<PotVote>,
    token: SystemTokenId,
    who: VoteAccountId,
    deltas: Seq<VoteWeight>,
) -> Seq<PotVote>
    decreases deltas.len(),
{
    if deltas.len() == 0 {
        s
    } else {
        accumulate(accumulate_all(s, token, who, deltas.drop_last()), token, who, deltas.last())
    }
}

/// The sum of `deltas`.
pub open spec fn total(deltas: Seq<VoteWeight>) -> int
    decreases deltas.len(),
{
    if deltas.len() == 0 {
        0
    } else {
        total(deltas.drop_last()) + deltas.last()
    }
}

/// A vote for a pair that has an entry changes the weight of that entry and
/// nothing else, however full the ledger is.
pub proof fn lemma_accumulate_existing(
    s: Seq<PotVote>,
    token: SystemTokenId,
    who: VoteAccountId,
    delta: VoteWeight,
    i: int,
)
    requires
        distinct_keys(s),
        is_entry_of(s, token, who, i),
    ensures
        accepts(s, token, who),
        accumulate(s, token, who, delta) == s.update(
            i,
            PotVote {
                system_token_id: token,
                account_id: who,
                vote_weight: saturating_sum(s[i].vote_weight as int, delta as int) as u128,
            },
        ),
        distinct_keys(accumulate(s, token, who, delta)),
        is_entry_of(accumulate(s, token, who, delta), token, who, i),
{
    let c = entry_index(s, token, who);
    assert(is_entry_of(s, token, who, c));
    if c < i {
        assert(!(s[c].system_token_id == s[i].system_token_id && s[c].account_id == s[i].account_id));
    } else if i < c {
        assert(!(s[i].system_token_id == s[c].system_token_id && s[i].account_id == s[c].account_id));
    }
    let r = accumulate(s, token, who, delta);
    assert forall|a: int, b: int| 0 <= a < b < r.len() implies !(r[a].system_token_id
        == r[b].system_token_id && r[a].account_id == r[b].account_id) by {
        assert(r[a].system_token_id == s[a].system_token_id && r[a].account_id == s[a].account_id);
        assert(r[b].system_token_id == s[b].system_token_id && r[b].account_id == s[b].account_id);
    }
}

/// Votes for a pair that has an entry add up: after any number of them the
/// entry holds its weight and all the votes, clamped at the largest weight,
/// and every other entry is as it was.
pub proof fn lemma_accumulate_all_existing(
    s: Seq<PotVote>,
    token: SystemTokenId,
    who: VoteAccountId,
    deltas: Seq<VoteWeight>,
)
    requires
        distinct_keys(s),
        has_entry(s, token, who),
    ensures
        accumulate_all(s, token, who, deltas) == s.update(
            entry_index(s, token, who),
            PotVote {
                system_token_id: token,
                account_id: who,
                vote_weight: saturating_sum(
                    s[entry_index(s, token, who)].vote_weight as int,
                    total(deltas),
                ) as u128,
            },
        ),
        distinct_keys(accumulate_all(s, token, who, deltas)),
        weight_of(accumulate_all(s, token, who, deltas), token, who) == Some(
            saturating_sum(s[entry_index(s, token, who)].vote_weight as int, total(deltas)) as u128,
        ),
    decreases deltas.len(),
{
    let i = entry_index(s, token, who);
    assert(is_entry_of(s, token, who, i));
    lemma_total_nonnegative(deltas);
    lemma_weight_of_entry(s, token, who, deltas, i);
    if deltas.len() == 0 {
        assert(s.update(i, s[i]) =~= s);
    } else {
        let before = accumulate_all(s, token, who, deltas.drop_last());
        lemma_accumulate_all_existing(s, token, who, deltas.drop_last());
        lemma_total_nonnegative(deltas.drop_last());
        assert(is_entry_of(before, token, who, i));
        lemma_accumulate_existing(before, token, who, deltas.last(), i);
        assert(accumulate(before, token, who, deltas.last()) =~= s.update(
            i,
            PotVote {
                system_token_id: token,
                account_id: who,
                vote_weight: saturating_sum(s[i].vote_weight as int, total(deltas)) as u128,
            },
        ));
    }
}

/// An entry keeps its place whatever is voted for its pair, and the weight
/// of the pair is the weight of that entry.
proof fn lemma_weight_of_entry(
    s: Seq<PotVote>,
    token: SystemTokenId,
    who: VoteAccountId,
    deltas: Seq<VoteWeight>,
    i: int,
)
    requires
        distinct_keys(s),
        is_entry_of(s, token, who, i),
    ensures
        distinct_keys(accumulate_all(s, token, who, deltas)),
        is_entry_of(accumulate_all(s, token, who, deltas), token, who, i),
        weight_of(accumulate_all(s, token, who, deltas), token, who) == Some(
            accumulate_all(s, token, who, deltas)[i].vote_weight,
        ),
    decreases deltas.len(),
{
    if deltas.len() > 0 {
        lemma_weight_of_entry(s, token, who, deltas.drop_last(), i);
        lemma_accumulate_existing(
            accumulate_all(s, token, who, deltas.drop_last()),
            token,
            who,
            deltas.last(),
            i,
        );
    }
    let r = accumulate_all(s, token, who, deltas);
    let c = entry_index(r, token, who);
    assert(is_entry_of(r, token, who, c));
    if c < i {
        assert(!(r[c].system_token_id == r[i].system_token_id && r[c].account_id == r[i].account_id));
    } else if i < c {
        assert(!(r[i].system_token_id == r[c].system_token_id && r[i].account_id == r[c].account_id));
    }
}

/// Two votes for pairs that have entries give the same ledger in either
/// order.
pub proof fn lemma_accumulate_commutes(
    s: Seq<PotVote>,
    token: SystemTokenId,
    who: VoteAccountId,
    delta: VoteWeight,
    other_token: SystemTokenId,
    other: VoteAccountId,
    other_delta: VoteWeight,
)
    requires
        distinct_keys(s),
        has_entry(s, token, who),
        has_entry(s, other_token, other),
    ensures
        accumulate(accumulate(s, token, who, delta), other_token, other, other_delta) == accumulate(
            accumulate(s, other_token, other, other_delta),
            token,
            who,
            delta,
        ),
{
    let i = entry_index(s, token, who);
    let j = entry_index(s, other_token, other);
    assert(is_entry_of(s, token, who, i));
    assert(is_entry_of(s, other_token, other, j));
    lemma_accumulate_existing(s, token, who, delta, i);
    lemma_accumulate_existing(s, other_token, other, other_delta, j);
    let first = accumulate(s, token, who, delta);
    let second = accumulate(s, other_token, other, other_delta);
    if i == j {
        lemma_accumulate_existing(first, token, who, other_delta, i);
        lemma_accumulate_existing(second, token, who, delta, i);
        assert(accumulate(first, token, who, other_delta) =~= accumulate(second, token, who, delta));
    } else {
        assert(is_entry_of(first, other_token, other, j));
        assert(is_entry_of(second, token, who, i));
        lemma_accumulate_existing(first, other_token, other, other_delta, j);
        lemma_accumulate_existing(second, token, who, delta, i);
        assert(accumulate(first, other_token, other, other_delta) =~= accumulate(
            second,
            token,
            who,
            delta,
        ));
    }
}

/// A sum of weights is not negative.
pub proof fn lemma_total_nonnegative(deltas: Seq<VoteWeight>)
    ensures
        total(deltas) >= 0,
    decreases deltas.len(),
{
    if deltas.len() > 0 {
        lemma_total_nonnegative(deltas.drop_last());
    }
}

/// The sum of a list is the sum of the list without one of its members,
/// and that member.
pub proof fn lemma_total_remove(deltas: Seq<VoteWeight>, at: int)
    requires
        0 <= at < deltas.len(),
    ensures
        total(deltas) == total(deltas.remove(at)) + deltas[at],
    decreases deltas.len(),
{
    if at == deltas.len() - 1 {
        assert(deltas.remove(at) =~= deltas.drop_last());
    } else {
        lemma_total_remove(deltas.drop_last(), at);
        assert(deltas.remove(at).drop_last() =~= deltas.drop_last().remove(at));
        assert(deltas.remove(at).last() == deltas.last());
    }
}

/// The sum of a list does not depend on the order of its members.
pub proof fn lemma_total_of_permutation(first: Seq<VoteWeight>, second: Seq<VoteWeight>)
    requires
        first.to_multiset() == second.to_multiset(),
    ensures
        total(first) == total(second),
    decreases first.len(),
{
    vstd::seq_lib::to_multiset_len(first);
    vstd::seq_lib::to_multiset_len(second);
    if first.len() > 0 {
        let x = first.last();
        let rest = first.drop_last();
        assert(rest.push(x) =~= first);
        vstd::seq_lib::to_multiset_build(rest, x);
        assert(first.to_multiset().count(x) > 0);
        vstd::seq_lib::to_multiset_contains(second, x);
        assert(second.contains(x));
        let at = second.index_of(x);
        vstd::seq_lib::to_multiset_remove(second, at);
        assert(rest.to_multiset() =~= first.to_multiset().remove(x));
        lemma_total_of_permutation(rest, second.remove(at));
        lemma_total_remove(second, at);
    }
}

/// The same votes for a pair that has an entry give the same ledger in
/// whatever order they are cast.
pub proof fn lemma_accumulate_order_independent(
    s: Seq<PotVote>,
    token: SystemTokenId,
    who: VoteAccountId,
    first: Seq<VoteWeight>,
    second: Seq<VoteWeight>,
)
    requires
        distinct_keys(s),
        has_entry(s, token, who),
        first.to_multiset() == second.to_multiset(),
    ensures
        accumulate_all(s, token, who, first) == accumulate_all(s, token, who, second),
{
    lemma_accumulate_all_existing(s, token, who, first);
    lemma_accumulate_all_existing(s, token, who, second);
    lemma_total_of_permutation(first, second);
}

/// A vote never takes a ledger over its bound, and it leaves each pair with
/// one entry.
pub proof fn lemma_accumulate_keeps_bound(
    s: Seq<PotVote>,
    token: SystemTokenId,
    who: VoteAccountId,
    delta: VoteWeight,
)
    requires
        distinct_keys(s),
        s.len() <= MAX_VOTE_NUM,
    ensures
        distinct_keys(accumulate(s, token, who, delta)),
        accumulate(s, token, who, delta).len() <= MAX_VOTE_NUM,
        s.len() <= accumulate(s, token, who, delta).len(),
{
    if has_entry(s, token, who) {
        let i = entry_index(s, token, who);
        assert(is_entry_of(s, token, who, i));
        lemma_accumulate_existing(s, token, who, delta, i);
    } else if s.len() < MAX_VOTE_NUM {
        let r = accumulate(s, token, who, delta);
        assert forall|a: int, b: int| 0 <= a < b < r.len() implies !(r[a].system_token_id
            == r[b].system_token_id && r[a].account_id == r[b].account_id) by {
            if b == s.len() {
                assert(!is_entry_of(s, token, who, a));
            }
        }
    }
}

/// A full ledger turns a new pair away and stays as it is.
pub proof fn lemma_full_ledger_drops_new_pair(
    s: Seq<PotVote>,
    token: SystemTokenId,
    who: VoteAccountId,
    delta: VoteWeight,
)
    requires
        s.len() >= MAX_VOTE_NUM,
        !has_entry(s, token, who),
    ensures
        !accepts(s, token, who),
        accumulate(s, token, who, delta) == s,
{
}

/// Without a threshold the top `k` are the candidates of the first `k`
/// entries of the ledger ordered by descending weight; that order keeps the
/// entries of any one weight as they stand in the ledger: the pair that came
/// first stays first.
pub proof fn lemma_top_k_without_threshold(s: Seq<PotVote>, k: int, w: VoteWeight)
    requires
        0 <= k,
    ensures
        ({
            let points = s.map_values(point_of());
            let sorted = sort_desc(points);
            let n = if k < s.len() { k } else { s.len() as int };
            &&& sorted.len() == s.len()
            &&& sorted_desc(sorted)
            &&& sorted.filter(has_weight(w)) == points.filter(has_weight(w))
            &&& top_k_of(s, k, 0) == sorted.take(n).map_values(candidate_of())
        }),
{
    let points = s.map_values(point_of());
    let sorted = sort_desc(points);
    lemma_sort_desc_len(points);
    lemma_sort_desc_sorted(points);
    lemma_sort_desc_stable(points, w);
    lemma_filter_all_or_none(sorted, at_least(0));
}

/// The ledger of votes: the weight of each (token, candidate) pair that was
/// voted for, in the order in which the pairs first came.
#[derive(Clone, Debug)]
pub struct PotVotes {
    votes: Vec<PotVote>,
    vote_count: u32,
    max_vote_count: u32,
}

impl View for PotVotes {
    type V = Seq<PotVote>;

    closed spec fn view(&self) -> Seq<PotVote> {
        self.votes@
    }
}

impl PotVotes {
    /// The ledger is consistent: it counts its entries, is not over its
    /// bound and holds each pair once.
    pub closed spec fn wf(&self) -> bool {
        &&& self.vote_count == self.votes@.len()
        &&& self.max_vote_count == MAX_VOTE_NUM
        &&& self.vote_count <= self.max_vote_count
        &&& distinct_keys(self.votes@)
    }

    /// A consistent ledger holds each pair once and `MAX_VOTE_NUM` pairs at
    /// most.
    pub proof fn lemma_wf(&self)
        requires
            self.wf(),
        ensures
            distinct_keys(self@),
            self@.len() <= MAX_VOTE_NUM,
    {
    }

    /// The ledger with the one entry `vote_weight` of `candidate` in
    /// `system_token_id`.
    pub fn new(
        system_token_id: SystemTokenId,
        candidate: VoteAccountId,
        vote_weight: VoteWeight,
    ) -> (ledger: Self)
        ensures
            ledger.wf(),
            ledger@ == seq![PotVote { system_token_id, account_id: candidate, vote_weight }],
    {
        let mut votes: Vec<PotVote> = Vec::new();
        votes.push(PotVote::new(system_token_id, candidate, vote_weight));
        Self { votes, vote_count: 1, max_vote_count: MAX_VOTE_NUM }
    }

    /// The number of entries: never more than `MAX_VOTE_NUM`.
    pub fn vote_count(&self) -> (n: u32)
        requires
            self.wf(),
        ensures
            n == self@.len(),
            n <= MAX_VOTE_NUM,
    {
        self.vote_count
    }

    /// The number of entries the ledger takes at most.
    pub fn max_vote_count(&self) -> (n: u32)
        requires
            self.wf(),
        ensures
            n == MAX_VOTE_NUM,
    {
        self.max_vote_count
    }

    /// Where the entry of `vote_account_id` in `system_token_id` stands.
    fn find(
        &self,
        system_token_id: SystemTokenId,
        vote_account_id: &VoteAccountId,
    ) -> (found: Option<usize>)
        requires
            self.wf(),
        ensures
            found is Some <==> has_entry(self@, system_token_id, *vote_account_id),
            found matches Some(i) ==> i == entry_index(self@, system_token_id, *vote_account_id)
                && is_entry_of(self@, system_token_id, *vote_account_id, i as int),
    {
        let n = self.votes.len();
        let mut i: usize = 0;
        while i < n
            invariant
                i <= n,
                n == self.votes@.len(),
                self.wf(),
                forall|j: int| 0 <= j < i ==> !is_entry_of(self@, system_token_id, *vote_account_id, j),
            decreases n - i,
        {
            let vote = self.votes[i];
            if vote.system_token_id == system_token_id && vote.account_id == *vote_account_id {
                proof {
                    assert(is_entry_of(self@, system_token_id, *vote_account_id, i as int));
                    let c = entry_index(self@, system_token_id, *vote_account_id);
                    assert(is_entry_of(self@, system_token_id, *vote_account_id, c));
                    if i < c {
                        assert(!(self@[i as int].system_token_id == self@[c].system_token_id
                            && self@[i as int].account_id == self@[c].account_id));
                    }
                }
                return Some(i);
            }
            i = i + 1;
        }
        None
    }

    /// Counts one more entry where the ledger is not full.
    fn increase_vote_count_if_not_exceeds(&mut self) -> (increased: bool)
        requires
            old(self).vote_count <= old(self).max_vote_count,
        ensures
            increased <==> old(self).vote_count < old(self).max_vote_count,
            final(self).vote_count == old(self).vote_count + if increased { 1int } else { 0int },
            final(self).max_vote_count == old(self).max_vote_count,
            final(self).votes == old(self).votes,
    {
        if self.vote_count < self.max_vote_count {
            self.vote_count = self.vote_count + 1;
            return true;
        }
        false
    }

    /// Votes `vote_weight` for `vote_account_id` in `system_token_id`.
    ///
    /// Where the pair has an entry the weight is added to it, saturating,
    /// whether the ledger is full or not. A new pair becomes the last entry
    /// where the ledger is not full; where it is, the vote is dropped and the
    /// ledger stays as it was.
    pub fn update_vote_weight(
        &mut self,
        system_token_id: SystemTokenId,
        vote_account_id: VoteAccountId,
        vote_weight: VoteWeight,
    ) -> (outcome: Result<(), StaleVote>)
        requires
            old(self).wf(),
        ensures
            final(self).wf(),
            outcome is Ok <==> accepts(old(self)@, system_token_id, vote_account_id),
            final(self)@ == accumulate(old(self)@, system_token_id, vote_account_id, vote_weight),
            outcome is Err ==> final(self)@ == old(self)@,
    {
        match self.find(system_token_id, &vote_account_id) {
            Some(i) => {
                let old_weight = self.votes[i].vote_weight;
                let vote = PotVote::new(
                    system_token_id,
                    vote_account_id,
                    old_weight.saturating_add(vote_weight),
                );
                self.votes.set(i, vote);
                Ok(())
            },
            None => {
                if self.increase_vote_count_if_not_exceeds() {
                    self.votes.push(PotVote::new(system_token_id, vote_account_id, vote_weight));
                    proof {
                        let s = old(self).votes@;
                        assert forall|a: int, b: int| 0 <= a < b < self.votes@.len() implies !(
                        self.votes@[a].system_token_id == self.votes@[b].system_token_id
                            && self.votes@[a].account_id == self.votes@[b].account_id) by {
                            if b == s.len() {
                                assert(!is_entry_of(s, system_token_id, vote_account_id, a));
                            }
                        }
                    }
                    Ok(())
                } else {
                    Err(StaleVote)
                }
            },
        }
    }

    /// Forgets every entry.
    pub fn reset(&mut self)
        ensures
            final(self).wf(),
            final(self)@ == Seq::<PotVote>::empty(),
    {
        self.votes = Vec::new();
        self.vote_count = 0;
        self.max_vote_count = MAX_VOTE_NUM;
    }

    /// The entries, oldest pair first, as a bounded list.
    pub fn votes(&self) -> (list: PotVotesResult)
        requires
            self.wf(),
        ensures
            bounded_votes(list) == self@,
    {
        let n = self.votes.len();
        let mut res: Vec<PotVote> = Vec::new();
        let mut i: usize = 0;
        while i < n
            invariant
                i <= n,
                n == self.votes@.len(),
                res@ == self.votes@.take(i as int),
            decreases n - i,
        {
            res.push(self.votes[i]);
            assert(self.votes@.take(i + 1) =~= self.votes@.take(i as int).push(self.votes@[i as int]));
            i = i + 1;
        }
        assert(self.votes@.take(n as int) =~= self.votes@);
        match try_bound_votes(res) {
            Ok(list) => list,
            Err(_) => vstd::pervasive::unreached(),
        }
    }

    /// The candidates of the `k` heaviest entries, at most, among those that
    /// hold at least `min_threshold`: heaviest first, entries of equal weight
    /// in the order in which their pairs first came.
    pub fn top_k(&self, k: u32, min_threshold: VoteWeight) -> (top: Vec<VoteAccountId>)
        requires
            self.wf(),
        ensures
            top@ == top_k_of(self@, k as int, min_threshold),
    {
        let n = self.votes.len();
        let mut status = VotingStatus::default();
        let mut i: usize = 0;
        while i < n
            invariant
                i <= n,
                n == self.votes@.len(),
                status@ == self.votes@.take(i as int).map_values(point_of()),
            decreases n - i,
        {
            let vote = self.votes[i];
            status.status.push((vote.account_id, vote.vote_weight));
            assert(self.votes@.take(i + 1) =~= self.votes@.take(i as int).push(vote));
            assert(self.votes@.take(i as int).push(vote).map_values(point_of()) =~= self.votes@.take(
                i as int,
            ).map_values(point_of()).push((vote.account_id, vote.vote_weight)));
            i = i + 1;
        }
        assert(self.votes@.take(n as int) =~= self.votes@);
        status.sort_by_vote_points();
        proof {
            lemma_sort_desc_sorted(self@.map_values(point_of()));
            lemma_top_of_sorted(status@, k as int, min_threshold);
        }
        status.top_validators(k, min_threshold)
    }
}

impl Default for PotVotes {
    /// The ledger without any entry.
    fn default() -> (ledger: Self)
        ensures
            ledger.wf(),
            ledger@ == Seq::<PotVote>::empty(),
    {
        Self { votes: Vec::new(), vote_count: 0, max_vote_count: MAX_VOTE_NUM }
    }
}

} // verus!
