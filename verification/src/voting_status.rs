//! The list of candidates and their vote points that an election sorts.
use crate::types::account::VoteAccountId;
use crate::types::vote::VoteWeight;
use vstd::prelude::*;

verus! {

/// A candidate and the points it holds.
pub type VotePoint = (VoteAccountId, VoteWeight);

/// `a + b`, clamped at the largest weight.
pub open spec fn saturating_sum(a: int, b: int) -> int {
    if a + b > u128::MAX {
        u128::MAX as int
    } else {
        a + b
    }
}

/// No entry is followed by a heavier one.
pub open spec fn sorted_desc(s: Seq<VotePoint>) -> bool {
    forall|i: int, j: int| 0 <= i < j < s.len() ==> s[i].1 >= s[j].1
}

/// `p` is where an entry of weight `w` goes into `s`: behind every entry that
/// is at least as heavy, in front of the first lighter one.
pub open spec fn is_insert_pos(s: Seq<VotePoint>, w: VoteWeight, p: int) -> bool {
    &&& 0 <= p <= s.len()
    &&& forall|i: int| 0 <= i < p ==> (#[trigger] s[i]).1 >= w
    &&& p < s.len() ==> s[p].1 < w
}

/// The place of an entry of weight `w` in `s`.
pub open spec fn insert_pos(s: Seq<VotePoint>, w: VoteWeight) -> int {
    choose|p: int| is_insert_pos(s, w, p)
}

/// `s` ordered by descending weight, entries of equal weight in the order
/// they have in `s`: each entry of `s` in turn is put behind all entries
/// placed so far that are at least as heavy.
pub open spec fn sort_desc(s: Seq<VotePoint>) -> Seq<VotePoint>
    decreases s.len(),
{
    if s.len() == 0 {
        s
    } else {
        let placed = sort_desc(s.drop_last());
        placed.insert(insert_pos(placed, s.last().1), s.last())
    }
}

/// The entries that hold exactly `w` points.
pub open spec fn has_weight(w: VoteWeight) -> spec_fn(VotePoint) -> bool {
    |e: VotePoint| e.1 == w
}

/// The entries that hold at least `w` points.
pub open spec fn at_least(w: VoteWeight) -> spec_fn(VotePoint) -> bool {
    |e: VotePoint| e.1 >= w
}

/// The candidate of an entry.
pub open spec fn candidate_of() -> spec_fn(VotePoint) -> VoteAccountId {
    |e: VotePoint| e.0
}

/// The candidates among the first `num` entries of `s` that hold at least
/// `min_points`, in the order of `s`.
pub open spec fn top_of(s: Seq<VotePoint>, num: int, min_points: VoteWeight) -> Seq<VoteAccountId> {
    let n = if num < s.len() { num } else { s.len() as int };
    s.take(n).filter(at_least(min_points)).map_values(candidate_of())
}

/// The first `k` candidates, at most, of those entries of `s` that hold at
/// least `min_points`, in the order of `s`.
pub open spec fn first_k_at_least(s: Seq<VotePoint>, k: int, min_points: VoteWeight) -> Seq<VoteAccountId> {
    let kept = s.filter(at_least(min_points));
    let n = if k < kept.len() { k } else { kept.len() as int };
    kept.take(n).map_values(candidate_of())
}

/// Every list has a place for every weight.
pub proof fn lemma_insert_pos_exists(s: Seq<VotePoint>, w: VoteWeight)
    ensures
        is_insert_pos(s, w, insert_pos(s, w)),
    decreases s.len(),
{
    if s.len() == 0 {
        assert(is_insert_pos(s, w, 0));
    } else {
        let t = s.drop_last();
        lemma_insert_pos_exists(t, w);
        let p = insert_pos(t, w);
        if p < t.len() {
            assert(forall|i: int| 0 <= i < p ==> s[i] == t[i]);
            assert(s[p] == t[p]);
            assert(is_insert_pos(s, w, p));
        } else if s.last().1 >= w {
            assert forall|i: int| 0 <= i < s.len() implies (#[trigger] s[i]).1 >= w by {
                if i < t.len() {
                    assert(s[i] == t[i]);
                }
            }
            assert(is_insert_pos(s, w, s.len() as int));
        } else {
            assert(forall|i: int| 0 <= i < p ==> s[i] == t[i]);
            assert(is_insert_pos(s, w, p));
        }
    }
}

/// A list has one place only for a weight.
pub proof fn lemma_insert_pos_unique(s: Seq<VotePoint>, w: VoteWeight, p: int)
    requires
        is_insert_pos(s, w, p),
    ensures
        insert_pos(s, w) == p,
{
    lemma_insert_pos_exists(s, w);
    let q = insert_pos(s, w);
    if p < q {
        assert(s[p].1 >= w);
    } else if q < p {
        assert(s[q].1 >= w);
    }
}

/// Sorting keeps the number of entries.
pub proof fn lemma_sort_desc_len(s: Seq<VotePoint>)
    ensures
        sort_desc(s).len() == s.len(),
    decreases s.len(),
{
    if s.len() > 0 {
        lemma_sort_desc_len(s.drop_last());
        lemma_insert_pos_exists(sort_desc(s.drop_last()), s.last().1);
    }
}

/// Putting an entry at its place into a sorted list leaves the list sorted.
pub proof fn lemma_insert_keeps_sorted(s: Seq<VotePoint>, e: VotePoint)
    requires
        sorted_desc(s),
    ensures
        sorted_desc(s.insert(insert_pos(s, e.1), e)),
{
    lemma_insert_pos_exists(s, e.1);
    let p = insert_pos(s, e.1);
    let r = s.insert(p, e);
    assert forall|i: int, j: int| 0 <= i < j < r.len() implies r[i].1 >= r[j].1 by {
        if j < p {
            assert(r[i] == s[i] && r[j] == s[j]);
        } else if j == p {
            assert(r[i] == s[i]);
        } else if i < p {
            assert(r[i] == s[i] && r[j] == s[j - 1]);
        } else if i == p {
            assert(r[j] == s[j - 1]);
            assert(s[p].1 >= s[j - 1].1 || p == j - 1);
        } else {
            assert(r[i] == s[i - 1] && r[j] == s[j - 1]);
        }
    }
}

/// The sorted list is in descending order of weight.
pub proof fn lemma_sort_desc_sorted(s: Seq<VotePoint>)
    ensures
        sorted_desc(sort_desc(s)),
    decreases s.len(),
{
    if s.len() > 0 {
        lemma_sort_desc_sorted(s.drop_last());
        lemma_insert_keeps_sorted(sort_desc(s.drop_last()), s.last());
    }
}

/// Where every entry of a list passes a test the test keeps the list, and
/// where none does it keeps nothing.
pub proof fn lemma_filter_all_or_none(s: Seq<VotePoint>, pred: spec_fn(VotePoint) -> bool)
    ensures
        (forall|i: int| 0 <= i < s.len() ==> pred(s[i])) ==> s.filter(pred) == s,
        (forall|i: int| 0 <= i < s.len() ==> !pred(s[i])) ==> s.filter(pred).len() == 0,
    decreases s.len(),
{
    reveal(Seq::filter);
    if s.len() > 0 {
        lemma_filter_all_or_none(s.drop_last(), pred);
        if forall|i: int| 0 <= i < s.len() ==> pred(s[i]) {
            assert(forall|i: int| 0 <= i < s.drop_last().len() ==> s.drop_last()[i] == s[i]);
            assert(s.drop_last().push(s.last()) =~= s);
        }
        if forall|i: int| 0 <= i < s.len() ==> !pred(s[i]) {
            assert(forall|i: int| 0 <= i < s.drop_last().len() ==> s.drop_last()[i] == s[i]);
        }
    }
}

/// Putting `e` at its place into a sorted list puts it behind the entries of
/// its own weight and leaves the entries of every weight in their order.
pub proof fn lemma_insert_filter(s: Seq<VotePoint>, e: VotePoint, w: VoteWeight)
    requires
        sorted_desc(s),
    ensures
        s.insert(insert_pos(s, e.1), e).filter(has_weight(w)) == if e.1 == w {
            s.filter(has_weight(w)).push(e)
        } else {
            s.filter(has_weight(w))
        },
{
    lemma_insert_pos_exists(s, e.1);
    let p = insert_pos(s, e.1);
    let pred = has_weight(w);
    let head = s.take(p);
    let tail = s.skip(p);
    assert(s.insert(p, e) =~= head + seq![e] + tail);
    assert(s =~= head + tail);
    Seq::filter_distributes_over_add(head + seq![e], tail, pred);
    Seq::filter_distributes_over_add(head, seq![e], pred);
    Seq::filter_distributes_over_add(head, tail, pred);
    assert(seq![e].filter(pred) == if e.1 == w { seq![e] } else { Seq::<VotePoint>::empty() }) by {
        reveal_with_fuel(Seq::filter, 2);
        assert(seq![e].drop_last() =~= Seq::<VotePoint>::empty());
        assert(Seq::<VotePoint>::empty().push(e) =~= seq![e]);
    }
    if e.1 == w {
        assert forall|i: int| 0 <= i < tail.len() implies !pred(tail[i]) by {
            assert(tail[i] == s[p + i]);
            assert(s[p].1 >= s[p + i].1 || i == 0);
        }
        lemma_filter_all_or_none(tail, pred);
        assert(head.filter(pred) + seq![e] + tail.filter(pred) =~= (head.filter(pred)
            + tail.filter(pred)).push(e));
    } else {
        assert(head.filter(pred) + Seq::<VotePoint>::empty() + tail.filter(pred) =~= head.filter(
            pred,
        ) + tail.filter(pred));
    }
}

/// Sorting is stable: the entries of any one weight stand in the sorted list
/// in the order they had before, none lost and none added.
pub proof fn lemma_sort_desc_stable(s: Seq<VotePoint>, w: VoteWeight)
    ensures
        sort_desc(s).filter(has_weight(w)) == s.filter(has_weight(w)),
    decreases s.len(),
{
    reveal(Seq::filter);
    if s.len() > 0 {
        lemma_sort_desc_stable(s.drop_last(), w);
        lemma_sort_desc_sorted(s.drop_last());
        lemma_insert_filter(sort_desc(s.drop_last()), s.last(), w);
    }
}

/// Sorting neither loses nor adds an entry.
pub proof fn lemma_sort_desc_permutes(s: Seq<VotePoint>)
    ensures
        sort_desc(s).to_multiset() == s.to_multiset(),
    decreases s.len(),
{
    if s.len() > 0 {
        let t = s.drop_last();
        lemma_sort_desc_permutes(t);
        lemma_sort_desc_len(t);
        lemma_insert_pos_exists(sort_desc(t), s.last().1);
        vstd::seq_lib::to_multiset_insert(sort_desc(t), insert_pos(sort_desc(t), s.last().1), s.last());
        vstd::seq_lib::to_multiset_build(t, s.last());
        assert(t.push(s.last()) =~= s);
    } else {
        assert(sort_desc(s) =~= s);
    }
}

/// In a sorted list the entries with at least `w` points are the entries in
/// front of the place of `w`.
pub proof fn lemma_sorted_filter_is_prefix(s: Seq<VotePoint>, w: VoteWeight)
    requires
        sorted_desc(s),
    ensures
        is_insert_pos(s, w, insert_pos(s, w)),
        s.filter(at_least(w)) == s.take(insert_pos(s, w)),
{
    lemma_insert_pos_exists(s, w);
    let p = insert_pos(s, w);
    let pred = at_least(w);
    let head = s.take(p);
    let tail = s.skip(p);
    assert(s =~= head + tail);
    Seq::filter_distributes_over_add(head, tail, pred);
    assert forall|i: int| 0 <= i < tail.len() implies !pred(tail[i]) by {
        assert(tail[i] == s[p + i]);
        assert(s[p].1 >= s[p + i].1 || i == 0);
    }
    assert forall|i: int| 0 <= i < head.len() implies pred(head[i]) by {
        assert(head[i] == s[i]);
    }
    lemma_filter_all_or_none(tail, pred);
    lemma_filter_all_or_none(head, pred);
    assert(head + Seq::<VotePoint>::empty() =~= head);
}

/// On a sorted list it makes no difference whether the light entries are
/// dropped before or after the list is cut to `k` entries.
pub proof fn lemma_top_of_sorted(s: Seq<VotePoint>, k: int, min_points: VoteWeight)
    requires
        sorted_desc(s),
        0 <= k,
    ensures
        top_of(s, k, min_points) == first_k_at_least(s, k, min_points),
{
    lemma_sorted_filter_is_prefix(s, min_points);
    let p = insert_pos(s, min_points);
    let n = if k < s.len() { k } else { s.len() as int };
    let cut = s.take(n);
    assert(sorted_desc(cut)) by {
        assert forall|i: int, j: int| 0 <= i < j < cut.len() implies cut[i].1 >= cut[j].1 by {
            assert(cut[i] == s[i] && cut[j] == s[j]);
        }
    }
    let q = if p < n { p } else { n };
    assert(is_insert_pos(cut, min_points, q)) by {
        assert forall|i: int| 0 <= i < q implies (#[trigger] cut[i]).1 >= min_points by {
            assert(cut[i] == s[i]);
        }
        if q < cut.len() {
            assert(cut[q] == s[q]);
        }
    }
    lemma_insert_pos_unique(cut, min_points, q);
    lemma_sorted_filter_is_prefix(cut, min_points);
    assert(cut.take(q) =~= s.take(p).take(q));
}

/// Cutting to `k` candidates leaves `k` at most.
pub proof fn lemma_first_k_len(s: Seq<VotePoint>, k: int, min_points: VoteWeight)
    requires
        0 <= k,
    ensures
        first_k_at_least(s, k, min_points).len() <= k,
        first_k_at_least(s, k, min_points).len() <= s.len(),
{
    s.lemma_filter_len(at_least(min_points));
}

/// `i` is the first entry of `s` that belongs to `who`.
pub open spec fn is_first_entry_of(s: Seq<VotePoint>, who: VoteAccountId, i: int) -> bool {
    &&& 0 <= i < s.len()
    &&& s[i].0 == who
    &&& forall|j: int| 0 <= j < i ==> (#[trigger] s[j]).0 != who
}

/// `s` has an entry for `who`.
pub open spec fn has_candidate(s: Seq<VotePoint>, who: VoteAccountId) -> bool {
    exists|i: int| is_first_entry_of(s, who, i)
}

/// `s` after `points` were given to `who`: added, saturating, to the first
/// entry of `who`, or put at the end as a new entry where `who` has none.
pub open spec fn with_points(s: Seq<VotePoint>, who: VoteAccountId, points: VoteWeight) -> Seq<
    VotePoint,
> {
    if has_candidate(s, who) {
        let i = choose|i: int| is_first_entry_of(s, who, i);
        s.update(i, (who, saturating_sum(s[i].1 as int, points as int) as u128))
    } else {
        s.push((who, points))
    }
}

/// The candidates and their points, in the order the candidates were first
/// voted for.
#[derive(Clone, Debug)]
pub struct VotingStatus {
    /// One entry for each candidate and its points.
    pub status: Vec<VotePoint>,
}

impl View for VotingStatus {
    type V = Seq<VotePoint>;

    open spec fn view(&self) -> Seq<VotePoint> {
        self.status@
    }
}

impl Default for VotingStatus {
    /// The status without any candidate.
    fn default() -> (status: Self)
        ensures
            status@ == Seq::<VotePoint>::empty(),
    {
        Self { status: Vec::new() }
    }
}

impl VotingStatus {
    /// Gives `vote_points` to `who`.
    pub fn add_points(&mut self, who: &VoteAccountId, vote_points: VoteWeight)
        ensures
            final(self)@ == with_points(old(self)@, *who, vote_points),
    {
        let n = self.status.len();
        let mut i: usize = 0;
        while i < n
            invariant
                i <= n,
                n == self.status@.len(),
                self.status@ == old(self).status@,
                forall|j: int| 0 <= j < i ==> (#[trigger] self.status@[j]).0 != *who,
            decreases n - i,
        {
            let entry = self.status[i];
            if entry.0 == *who {
                assert(is_first_entry_of(old(self)@, *who, i as int));
                proof {
                    let c = choose|c: int| is_first_entry_of(old(self)@, *who, c);
                    if c < i {
                        assert(old(self)@[c].0 != *who);
                    } else if i < c {
                        assert(old(self)@[i as int].0 != *who);
                    }
                }
                self.status.set(i, (*who, entry.1.saturating_add(vote_points)));
                return ;
            }
            i = i + 1;
        }
        proof {
            if has_candidate(old(self)@, *who) {
                let c = choose|c: int| is_first_entry_of(old(self)@, *who, c);
                assert(old(self)@[c].0 != *who);
            }
        }
        self.status.push((*who, vote_points));
    }

    /// The number of entries.
    pub fn counts(&self) -> (n: usize)
        ensures
            n == self@.len(),
    {
        self.status.len()
    }

    /// Orders the entries by descending points; entries with the same points
    /// keep their order.
    pub fn sort_by_vote_points(&mut self)
        ensures
            final(self)@ == sort_desc(old(self)@),
    {
        let n = self.status.len();
        let mut placed: Vec<VotePoint> = Vec::new();
        let mut i: usize = 0;
        while i < n
            invariant
                i <= n,
                n == self.status@.len(),
                self.status@ == old(self).status@,
                placed@ == sort_desc(self.status@.take(i as int)),
            decreases n - i,
        {
            let entry = self.status[i];
            proof {
                lemma_sort_desc_len(self.status@.take(i as int));
            }
            let m = placed.len();
            let mut p: usize = 0;
            while p < m && placed[p].1 >= entry.1
                invariant
                    p <= m,
                    m == placed@.len(),
                    forall|j: int| 0 <= j < p ==> (#[trigger] placed@[j]).1 >= entry.1,
                decreases m - p,
            {
                p = p + 1;
            }
            proof {
                assert(is_insert_pos(placed@, entry.1, p as int));
                lemma_insert_pos_unique(placed@, entry.1, p as int);
                let next = self.status@.take(i + 1);
                assert(next.drop_last() =~= self.status@.take(i as int));
                assert(next.last() == entry);
            }
            placed.insert(p, entry);
            i = i + 1;
        }
        assert(self.status@.take(n as int) =~= self.status@);
        self.status = placed;
    }

    /// The candidates among the first `num` entries that hold at least
    /// `min_vote_points`, in the order of the entries.
    ///
    /// On a status that [`Self::sort_by_vote_points`] has ordered these are
    /// the `num` candidates, at most, with the most points among those that
    /// reach `min_vote_points`.
    pub fn top_validators(&self, num: u32, min_vote_points: VoteWeight) -> (top: Vec<VoteAccountId>)
        ensures
            top@ == top_of(self@, num as int, min_vote_points),
    {
        let len = self.status.len();
        let n: usize = if (num as usize) < len { num as usize } else { len };
        let mut top: Vec<VoteAccountId> = Vec::new();
        let mut i: usize = 0;
        assert(self.status@.take(0).filter(at_least(min_vote_points)) =~= Seq::<VotePoint>::empty())
            by {
            reveal(Seq::filter);
        }
        while i < n
            invariant
                i <= n <= len,
                len == self.status@.len(),
                top@ == self.status@.take(i as int).filter(at_least(min_vote_points)).map_values(
                    candidate_of(),
                ),
            decreases n - i,
        {
            let entry = self.status[i];
            proof {
                reveal(Seq::filter);
                let next = self.status@.take(i + 1);
                assert(next.drop_last() =~= self.status@.take(i as int));
                assert(next.last() == entry);
                let kept = self.status@.take(i as int).filter(at_least(min_vote_points));
                assert(kept.push(entry).map_values(candidate_of()) =~= kept.map_values(
                    candidate_of(),
                ).push(entry.0));
            }
            if entry.1 >= min_vote_points {
                top.push(entry.0);
            }
            i = i + 1;
        }
        top
    }
}

} // verus!
