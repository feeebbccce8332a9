use pot_voting::types::{
    PotVote, PotVotes, PotVotesResult, StaleVote, SystemTokenId, VoteAccountId, VoteWeight,
    MAX_VOTE_NUM,
};

fn new_pot_votes(
    system_token_id: SystemTokenId,
    candidate: VoteAccountId,
    vote_weight: VoteWeight,
) -> PotVotes {
    PotVotes::new(system_token_id, candidate, vote_weight)
}

fn account(n: u8) -> VoteAccountId {
    VoteAccountId::new([n; 32])
}

#[test]
fn do_not_insert_value_if_exceeds_works() {
    let candidate: VoteAccountId = VoteAccountId::new([0u8; 32]);
    let vote_weight: VoteWeight = 1;
    let mut pot_votes = new_pot_votes(SystemTokenId::new(0, 0, 0), candidate.clone(), vote_weight);
    for i in 1..MAX_VOTE_NUM + 1 {
        let _ = pot_votes.update_vote_weight(SystemTokenId::new(0, 0, i), candidate.clone(), 1);
    }
    assert_eq!(pot_votes.vote_count(), MAX_VOTE_NUM);
}

#[test]
fn vote_do_not_insert_value_if_exceeds_works() {
    let candidate: VoteAccountId = VoteAccountId::new([0u8; 32]);
    let system_token_id = SystemTokenId::new(2000, 50, 99);
    let vote_weight: VoteWeight = 1;
    let mut pot_votes = new_pot_votes(system_token_id.clone(), candidate.clone(), vote_weight);
    for _ in 1..MAX_VOTE_NUM + 1 {
        assert_eq!(pot_votes.update_vote_weight(system_token_id, candidate.clone(), 1), Ok(()));
    }
    // Votes for a pair that has its entry take no room: one entry, all the weight.
    assert_eq!(pot_votes.vote_count(), 1);
    assert!(pot_votes.vote_count() <= MAX_VOTE_NUM);
    let expected: PotVotesResult =
        vec![PotVote::new(system_token_id, candidate, 1 + MAX_VOTE_NUM as u128)]
            .try_into()
            .expect("PotVotesResult should be bounded");
    assert_eq!(pot_votes.votes(), expected);
}

#[test]
fn get_votes_works() {
    let candidate: VoteAccountId = VoteAccountId::new([0u8; 32]);
    let vote_weight: VoteWeight = 1;
    let mut pot_votes =
        new_pot_votes(SystemTokenId::new(2000, 50, 99), candidate.clone(), vote_weight);
    let _ = pot_votes.update_vote_weight(
        SystemTokenId::new(2000, 50, 98),
        candidate.clone(),
        vote_weight,
    );
    let _ = pot_votes.update_vote_weight(
        SystemTokenId::new(2000, 50, 97),
        candidate.clone(),
        vote_weight,
    );
    let _ = pot_votes.update_vote_weight(
        SystemTokenId::new(2000, 50, 96),
        candidate.clone(),
        vote_weight,
    );
    println!("Votes : {:?}", pot_votes.votes());
    assert_eq!(pot_votes.vote_count(), 4);
    let expected: PotVotesResult = vec![
        PotVote::new(SystemTokenId::new(2000, 50, 99), candidate.clone(), vote_weight),
        PotVote::new(SystemTokenId::new(2000, 50, 98), candidate.clone(), vote_weight),
        PotVote::new(SystemTokenId::new(2000, 50, 97), candidate.clone(), vote_weight),
        PotVote::new(SystemTokenId::new(2000, 50, 96), candidate.clone(), vote_weight),
    ]
    .try_into()
    .expect("PotVotesResult should be bounded");

    assert_eq!(pot_votes.votes(), expected);
}

#[test]
fn vote_get_votes_works() {
    let candidate: VoteAccountId = VoteAccountId::new([0u8; 32]);
    let vote_weight: VoteWeight = 1;
    let mut pot_votes = new_pot_votes(SystemTokenId::new(0, 0, 0), candidate.clone(), vote_weight);
    let _ = pot_votes.update_vote_weight(SystemTokenId::new(0, 0, 1), candidate.clone(), vote_weight);
    let _ = pot_votes.update_vote_weight(SystemTokenId::new(0, 0, 2), candidate.clone(), vote_weight);
    let _ = pot_votes.update_vote_weight(SystemTokenId::new(0, 0, 3), candidate.clone(), vote_weight);
    println!("Votes : {:?}", pot_votes.votes());
    assert_eq!(pot_votes.vote_count(), 4);
    let expected: PotVotesResult = vec![
        PotVote::new(SystemTokenId::new(0, 0, 0), candidate.clone(), vote_weight),
        PotVote::new(SystemTokenId::new(0, 0, 1), candidate.clone(), vote_weight),
        PotVote::new(SystemTokenId::new(0, 0, 2), candidate.clone(), vote_weight),
        PotVote::new(SystemTokenId::new(0, 0, 3), candidate.clone(), vote_weight),
    ]
    .try_into()
    .expect("PotVotesResult should be bounded");

    assert_eq!(pot_votes.votes(), expected);
}

#[test]
fn new_ledger_holds_its_first_vote() {
    let t = SystemTokenId::new(1000, 1, 5);
    let ledger = PotVotes::new(t, account(7), 42);
    assert_eq!(ledger.vote_count(), 1);
    assert_eq!(ledger.max_vote_count(), MAX_VOTE_NUM);
    assert_eq!(ledger.votes().into_inner(), vec![PotVote::new(t, account(7), 42)]);
}

#[test]
fn max_vote_num_is_sixteen_thousand_three_hundred_eighty_four() {
    assert_eq!(MAX_VOTE_NUM, 16384);
}

#[test]
fn default_ledger_is_empty() {
    let ledger = PotVotes::default();
    assert_eq!(ledger.vote_count(), 0);
    assert!(ledger.votes().into_inner().is_empty());
    assert!(ledger.top_k(10, 0).is_empty());
}

#[test]
fn existing_pair_accumulates_saturating_sum() {
    let t = SystemTokenId::new(1, 2, 3);
    let mut ledger = PotVotes::new(t, account(1), 5);
    assert_eq!(ledger.update_vote_weight(t, account(1), 7), Ok(()));
    assert_eq!(ledger.update_vote_weight(t, account(1), 11), Ok(()));
    assert_eq!(ledger.votes().into_inner(), vec![PotVote::new(t, account(1), 23)]);
}

#[test]
fn weight_clamps_at_the_largest_value() {
    let t = SystemTokenId::new(1, 2, 3);
    let mut ledger = PotVotes::new(t, account(1), u128::MAX - 3);
    assert_eq!(ledger.update_vote_weight(t, account(1), 2), Ok(()));
    assert_eq!(ledger.votes().into_inner()[0].vote_weight, u128::MAX - 1);
    assert_eq!(ledger.update_vote_weight(t, account(1), 5), Ok(()));
    assert_eq!(ledger.votes().into_inner()[0].vote_weight, u128::MAX);
    assert_eq!(ledger.update_vote_weight(t, account(1), u128::MAX), Ok(()));
    assert_eq!(ledger.votes().into_inner()[0].vote_weight, u128::MAX);
}

#[test]
fn accumulation_does_not_depend_on_order() {
    let t = SystemTokenId::new(9, 9, 9);
    let deltas: [u128; 5] = [3, u128::MAX / 2, 10, u128::MAX / 2, 1];
    let mut forward = PotVotes::new(t, account(4), 0);
    for d in deltas.iter() {
        assert_eq!(forward.update_vote_weight(t, account(4), *d), Ok(()));
    }
    let mut backward = PotVotes::new(t, account(4), 0);
    for d in deltas.iter().rev() {
        assert_eq!(backward.update_vote_weight(t, account(4), *d), Ok(()));
    }
    assert_eq!(forward.votes(), backward.votes());
    assert_eq!(forward.votes().into_inner()[0].vote_weight, u128::MAX);
}

#[test]
fn same_candidate_in_two_tokens_has_two_entries() {
    let t1 = SystemTokenId::new(1, 1, 1);
    let t2 = SystemTokenId::new(1, 1, 2);
    let mut ledger = PotVotes::new(t1, account(1), 5);
    assert_eq!(ledger.update_vote_weight(t2, account(1), 6), Ok(()));
    assert_eq!(ledger.update_vote_weight(t1, account(2), 7), Ok(()));
    assert_eq!(ledger.vote_count(), 3);
    assert_eq!(
        ledger.votes().into_inner(),
        vec![
            PotVote::new(t1, account(1), 5),
            PotVote::new(t2, account(1), 6),
            PotVote::new(t1, account(2), 7),
        ]
    );
}

#[test]
fn scenario_full_ledger_turns_new_pair_away() {
    let candidate = account(0);
    let mut ledger = PotVotes::default();
    for i in 0..MAX_VOTE_NUM {
        assert_eq!(ledger.update_vote_weight(SystemTokenId::new(7, 1, i), candidate, 2), Ok(()));
    }
    assert_eq!(ledger.vote_count(), MAX_VOTE_NUM);
    let before = ledger.votes();
    assert_eq!(
        ledger.update_vote_weight(SystemTokenId::new(7, 1, MAX_VOTE_NUM), candidate, 2),
        Err(StaleVote)
    );
    assert_eq!(ledger.update_vote_weight(SystemTokenId::new(7, 1, 0), account(1), 2), Err(StaleVote));
    assert_eq!(ledger.vote_count(), MAX_VOTE_NUM);
    assert_eq!(ledger.votes(), before);
    // A pair that has its entry is still served.
    assert_eq!(ledger.update_vote_weight(SystemTokenId::new(7, 1, 5), candidate, 3), Ok(()));
    assert_eq!(ledger.vote_count(), MAX_VOTE_NUM);
    assert_eq!(ledger.votes().into_inner()[5].vote_weight, 5);
}

#[test]
fn reset_forgets_everything() {
    let t = SystemTokenId::new(1, 2, 3);
    let mut ledger = PotVotes::new(t, account(1), 5);
    let _ = ledger.update_vote_weight(t, account(2), 6);
    ledger.reset();
    assert_eq!(ledger.vote_count(), 0);
    assert!(ledger.votes().into_inner().is_empty());
    assert_eq!(ledger.update_vote_weight(t, account(2), 6), Ok(()));
    assert_eq!(ledger.votes().into_inner(), vec![PotVote::new(t, account(2), 6)]);
}

#[test]
fn top_k_orders_by_descending_weight() {
    let t = SystemTokenId::new(1, 2, 3);
    let mut ledger = PotVotes::new(t, account(1), 10);
    let _ = ledger.update_vote_weight(t, account(2), 30);
    let _ = ledger.update_vote_weight(t, account(3), 20);
    let _ = ledger.update_vote_weight(t, account(4), 40);
    assert_eq!(ledger.top_k(10, 0), vec![account(4), account(2), account(3), account(1)]);
    assert_eq!(ledger.top_k(2, 0), vec![account(4), account(2)]);
    assert_eq!(ledger.top_k(0, 0), Vec::<VoteAccountId>::new());
}

#[test]
fn top_k_keeps_insertion_order_among_equal_weights() {
    let t = SystemTokenId::new(1, 2, 3);
    // The accounts come in an order that is neither ascending nor descending.
    let mut ledger = PotVotes::new(t, account(9), 5);
    let _ = ledger.update_vote_weight(t, account(2), 7);
    let _ = ledger.update_vote_weight(t, account(5), 5);
    let _ = ledger.update_vote_weight(t, account(1), 7);
    let _ = ledger.update_vote_weight(t, account(7), 5);
    assert_eq!(
        ledger.top_k(5, 0),
        vec![account(2), account(1), account(9), account(5), account(7)]
    );
    assert_eq!(ledger.top_k(3, 0), vec![account(2), account(1), account(9)]);
}

#[test]
fn top_k_drops_entries_below_the_threshold() {
    let t = SystemTokenId::new(1, 2, 3);
    let mut ledger = PotVotes::new(t, account(1), 100);
    let _ = ledger.update_vote_weight(t, account(2), 90);
    let _ = ledger.update_vote_weight(t, account(3), 10);
    assert_eq!(ledger.top_k(3, 50), vec![account(1), account(2)]);
    assert_eq!(ledger.top_k(3, 90), vec![account(1), account(2)]);
    assert_eq!(ledger.top_k(3, 91), vec![account(1)]);
    assert_eq!(ledger.top_k(1, 50), vec![account(1)]);
    assert_eq!(ledger.top_k(3, 101), Vec::<VoteAccountId>::new());
}

#[test]
fn top_k_does_not_merge_the_tokens_of_a_candidate() {
    let t1 = SystemTokenId::new(1, 1, 1);
    let t2 = SystemTokenId::new(1, 1, 2);
    let mut ledger = PotVotes::new(t1, account(1), 5);
    let _ = ledger.update_vote_weight(t2, account(1), 6);
    let _ = ledger.update_vote_weight(t1, account(2), 4);
    assert_eq!(ledger.top_k(3, 0), vec![account(1), account(1), account(2)]);
}

#[test]
fn accounts_compare_by_their_bytes() {
    let mut bytes = [0u8; 32];
    bytes[31] = 1;
    assert_eq!(VoteAccountId::new([3u8; 32]), VoteAccountId::new([3u8; 32]));
    assert_ne!(VoteAccountId::new([0u8; 32]), VoteAccountId::new(bytes));
    assert!(VoteAccountId::new([0u8; 32]) < VoteAccountId::new(bytes));
    assert_eq!(VoteAccountId::new(bytes).to_bytes(), bytes);
}

#[test]
fn system_token_id_holds_its_parts() {
    let t = SystemTokenId::new(2000, 50, 99);
    assert_eq!(t.para_id, 2000);
    assert_eq!(t.pallet_id, 50);
    assert_eq!(t.asset_id, 99);
    assert!(SystemTokenId::new(1, 2, 3) < SystemTokenId::new(1, 2, 4));
}
