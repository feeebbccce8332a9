use pot_voting::origin::RawOrigin;
use pot_voting::types::{PotVote, SystemTokenId, VoteAccountId};
use pot_voting::voting_manager::{DistributeReward, Error, Event, Forcing, GenesisConfig, Pallet};

fn acc(n: u8) -> VoteAccountId {
    VoteAccountId::new([n; 32])
}

fn token() -> SystemTokenId {
    SystemTokenId::new(1000, 1, 5)
}

fn pallet(total: u32, seed: u32, seeds: &[u8], votes: &[(u8, u128)], threshold: u128) -> Pallet {
    let mut p = Pallet::new(6);
    assert_eq!(p.set_total_number_of_validators(RawOrigin::Root, total), Ok(()));
    assert_eq!(p.set_seed_trust_validators_num(RawOrigin::Root, seed), Ok(()));
    for s in seeds {
        assert_eq!(p.add_seed_trust_validator(RawOrigin::Root, acc(*s)), Ok(()));
    }
    for (c, w) in votes {
        assert_eq!(p.update_vote_status(acc(*c), token(), *w), Ok(()));
    }
    assert_eq!(p.set_min_vote_weight_threshold(RawOrigin::Root, threshold), Ok(()));
    let _ = p.take_events();
    p
}

#[test]
fn scenario_hybrid_election() {
    // Seed pool [A, B, Z]; votes C: 100, D: 90, E: 10; threshold 50.
    let (a, b, z, c, d, e) = (1u8, 2u8, 26u8, 3u8, 4u8, 5u8);
    let mut p = pallet(5, 2, &[a, b, z], &[(c, 100), (d, 90), (e, 10)], 50);
    let elected = p.elect_validators(0);
    assert_eq!(elected, vec![acc(a), acc(b), acc(c), acc(d)]);
    assert_eq!(
        p.take_events(),
        vec![
            Event::SeedTrustValidatorsElected { num: 2 },
            Event::PotValidatorsElected { num: 2 },
            Event::ValidatorsElected { pot_enabled: true },
        ]
    );
}

#[test]
fn election_without_seats_for_the_vote_skips_it() {
    let mut p = pallet(2, 2, &[1, 2, 3], &[(7, 100)], 0);
    assert_eq!(p.elect_validators(4), vec![acc(1), acc(2)]);
    assert_eq!(
        p.take_events(),
        vec![
            Event::SeedTrustValidatorsElected { num: 2 },
            Event::ValidatorsElected { pot_enabled: false },
        ]
    );
}

#[test]
fn election_without_votes_gives_the_seed_slice() {
    let mut p = pallet(5, 2, &[1, 2, 3], &[], 0);
    assert_eq!(p.elect_validators(0), vec![acc(1), acc(2)]);
    assert_eq!(
        p.take_events(),
        vec![
            Event::SeedTrustValidatorsElected { num: 2 },
            Event::PotValidatorsElected { num: 0 },
            Event::ValidatorsElected { pot_enabled: true },
        ]
    );
}

#[test]
fn election_with_a_short_seed_pool_takes_all_of_it() {
    let mut p = pallet(5, 3, &[1], &[(7, 5), (8, 9), (9, 7)], 0);
    assert_eq!(p.elect_validators(0), vec![acc(1), acc(8), acc(9)]);
}

#[test]
fn election_never_gives_more_than_the_total() {
    let mut p = pallet(3, 1, &[1, 2, 3], &[(7, 5), (8, 9), (9, 7), (10, 1)], 0);
    let elected = p.elect_validators(0);
    assert_eq!(elected, vec![acc(1), acc(8), acc(9)]);
    assert!(elected.len() <= 3);
}

#[test]
fn election_of_nothing() {
    let mut p = Pallet::new(6);
    assert_eq!(p.elect_validators(0), Vec::<VoteAccountId>::new());
}

#[test]
fn seed_trust_number_is_bounded_by_the_total() {
    let mut p = Pallet::new(6);
    assert_eq!(
        p.set_seed_trust_validators_num(RawOrigin::Root, 1),
        Err(Error::SeedTrustExceedMaxValidators)
    );
    assert_eq!(p.set_total_number_of_validators(RawOrigin::Root, 3), Ok(()));
    assert_eq!(p.set_seed_trust_validators_num(RawOrigin::Root, 3), Ok(()));
    assert_eq!(
        p.set_seed_trust_validators_num(RawOrigin::Root, 4),
        Err(Error::SeedTrustExceedMaxValidators)
    );
    assert_eq!(
        p.set_total_number_of_validators(RawOrigin::Root, 2),
        Err(Error::SeedTrustExceedMaxValidators)
    );
    assert_eq!(p.set_total_number_of_validators(RawOrigin::Root, 3), Ok(()));
    assert_eq!(p.take_events(), vec![Event::SeedTrustNumChanged { old: 0, new: 3 }]);
}

#[test]
fn administration_needs_root() {
    let mut p = Pallet::new(6);
    let signed = RawOrigin::Signed(acc(1));
    assert_eq!(p.set_total_number_of_validators(signed, 3), Err(Error::BadOrigin));
    assert_eq!(p.set_seed_trust_validators_num(signed, 0), Err(Error::BadOrigin));
    assert_eq!(p.add_seed_trust_validator(RawOrigin::Unsigned, acc(1)), Err(Error::BadOrigin));
    assert_eq!(p.set_min_vote_weight_threshold(signed, 3), Err(Error::BadOrigin));
    assert!(p.take_events().is_empty());
    assert_eq!(p.elect_validators(0), Vec::<VoteAccountId>::new());
}

#[test]
fn administration_is_reported() {
    let mut p = Pallet::new(6);
    assert_eq!(p.add_seed_trust_validator(RawOrigin::Root, acc(1)), Ok(()));
    assert_eq!(p.set_min_vote_weight_threshold(RawOrigin::Root, 9), Ok(()));
    assert_eq!(p.set_min_vote_weight_threshold(RawOrigin::Root, 4), Ok(()));
    p.set_force_era(Forcing::ForceAlways);
    assert_eq!(
        p.take_events(),
        vec![
            Event::SeedTrustAdded { who: acc(1) },
            Event::MinVotePointsChanged { old_points: 0, new_points: 9 },
            Event::MinVotePointsChanged { old_points: 9, new_points: 4 },
            Event::ForceEra { mode: Forcing::ForceAlways },
        ]
    );
    assert!(p.take_events().is_empty());
    assert_eq!(p.force_era(), Forcing::ForceAlways);
}

#[test]
fn first_session_starts_era_zero() {
    let mut p = pallet(3, 1, &[1], &[(7, 5)], 0);
    assert_eq!(p.current_era(), None);
    assert_eq!(p.start_session_index(0), None);
    assert_eq!(p.new_session_genesis(4), Some(vec![acc(1), acc(7)]));
    assert_eq!(p.current_era(), Some(0));
    assert_eq!(p.start_session_index(0), Some(4));
    assert_eq!(p.start_session_index(1), None);
}

#[test]
fn first_session_starts_era_zero_even_under_force_none() {
    let mut p = pallet(3, 1, &[1], &[], 0);
    p.set_force_era(Forcing::ForceNone);
    assert_eq!(p.new_session(0), Some(vec![acc(1)]));
    assert_eq!(p.current_era(), Some(0));
    assert_eq!(p.new_session(100), None);
    assert_eq!(p.current_era(), Some(0));
    assert_eq!(p.force_era(), Forcing::ForceNone);
}

#[test]
fn era_ends_after_its_sessions() {
    let mut p = pallet(3, 1, &[1], &[], 0);
    assert!(p.new_session(10).is_some());
    for s in 11..16 {
        assert_eq!(p.new_session(s), None);
    }
    assert_eq!(p.current_era(), Some(0));
    assert_eq!(p.new_session(16), Some(vec![acc(1)]));
    assert_eq!(p.current_era(), Some(1));
    assert_eq!(p.start_session_index(1), Some(16));
    assert_eq!(p.new_session(17), None);
    // A session index behind the start of the era counts as no session gone.
    assert_eq!(p.new_session(3), None);
}

#[test]
fn scenario_force_new_elects_once() {
    let mut p = pallet(3, 1, &[1], &[(7, 5)], 0);
    assert!(p.new_session(0).is_some());
    let _ = p.take_events();
    p.set_force_era(Forcing::ForceNew);
    assert_eq!(p.new_session(1), Some(vec![acc(1), acc(7)]));
    assert_eq!(p.force_era(), Forcing::NotForcing);
    assert_eq!(p.current_era(), Some(1));
    assert_eq!(
        p.take_events(),
        vec![
            Event::ForceEra { mode: Forcing::ForceNew },
            Event::SeedTrustValidatorsElected { num: 1 },
            Event::PotValidatorsElected { num: 1 },
            Event::ValidatorsElected { pot_enabled: true },
            Event::ForceEra { mode: Forcing::NotForcing },
        ]
    );
    assert_eq!(p.new_session(2), None);
}

#[test]
fn force_always_elects_every_session() {
    let mut p = pallet(3, 1, &[1], &[], 0);
    p.set_force_era(Forcing::ForceAlways);
    assert!(p.new_session(0).is_some());
    assert!(p.new_session(1).is_some());
    assert!(p.new_session(2).is_some());
    assert_eq!(p.current_era(), Some(2));
    assert_eq!(p.force_era(), Forcing::ForceAlways);
    assert_eq!(p.start_session_index(2), Some(2));
}

#[test]
fn default_forcing_is_not_forcing() {
    assert_eq!(Forcing::default(), Forcing::NotForcing);
    assert_eq!(Pallet::new(1).force_era(), Forcing::NotForcing);
}

#[test]
fn end_of_session_asks_for_the_rewards() {
    let p = Pallet::new(6);
    assert_eq!(p.end_session(17), DistributeReward { session_index: 17 });
}

#[test]
fn genesis_builds_the_pallet() {
    let config = GenesisConfig {
        seed_trust_validators: vec![acc(1), acc(2)],
        total_number_of_validators: 3,
        number_of_seed_trust_validators: 1,
        force_era: Forcing::NotForcing,
        is_pot_enable_at_genesis: true,
        vote_status_at_genesis: vec![
            PotVote::new(token(), acc(7), 5),
            PotVote::new(token(), acc(8), 4),
            PotVote::new(token(), acc(8), 4),
        ],
    };
    assert!(config.is_buildable());
    let mut p = config.build(6);
    assert_eq!(p.elect_validators(0), vec![acc(1), acc(8), acc(7)]);
}

#[test]
fn genesis_without_votes() {
    let config = GenesisConfig::default();
    assert!(config.is_buildable());
    let mut p = config.build(6);
    assert_eq!(p.elect_validators(0), Vec::<VoteAccountId>::new());
    let wrong = GenesisConfig { number_of_seed_trust_validators: 1, ..GenesisConfig::default() };
    assert!(!wrong.is_buildable());
    let empty = GenesisConfig { is_pot_enable_at_genesis: true, ..GenesisConfig::default() };
    assert!(!empty.is_buildable());
}

#[test]
fn forcing_mode_is_set_by_root_only() {
    let mut p = Pallet::new(6);
    assert_eq!(p.set_forcing_mode(RawOrigin::Signed(acc(1)), Forcing::ForceNone), Err(Error::BadOrigin));
    assert_eq!(p.force_era(), Forcing::NotForcing);
    assert!(p.take_events().is_empty());
    assert_eq!(p.set_forcing_mode(RawOrigin::Root, Forcing::ForceNone), Ok(()));
    assert_eq!(p.force_era(), Forcing::ForceNone);
    assert_eq!(p.take_events(), vec![Event::ForceEra { mode: Forcing::ForceNone }]);
}

#[test]
fn elected_by_vote_are_recorded_by_era() {
    let mut p = pallet(3, 1, &[1], &[(7, 5), (8, 9)], 0);
    assert_eq!(p.pot_validators(0), None);
    assert!(p.new_session(0).is_some());
    assert_eq!(p.pot_validators(0), Some(vec![acc(8), acc(7)]));
    assert_eq!(p.pot_validators(1), None);
    assert_eq!(p.update_vote_status(acc(7), token(), 10), Ok(()));
    assert_eq!(p.elect_validators(0), vec![acc(1), acc(7), acc(8)]);
    // The latest election of an era is the one on record.
    assert_eq!(p.pot_validators(0), Some(vec![acc(7), acc(8)]));
}

#[test]
fn election_without_seats_for_the_vote_records_nothing() {
    let mut p = pallet(1, 1, &[1], &[(7, 5)], 0);
    assert_eq!(p.elect_validators(3), vec![acc(1)]);
    assert_eq!(p.pot_validators(3), None);
}

#[test]
fn state_can_be_read() {
    let mut p = pallet(5, 2, &[1, 2, 3], &[(7, 5), (8, 9)], 4);
    assert_eq!(p.seed_trust_validators(), vec![acc(1), acc(2), acc(3)]);
    assert_eq!(p.number_of_seed_trust_validators(), 2);
    assert_eq!(p.total_number_of_validators(), 5);
    assert_eq!(p.min_vote_points_threshold(), 4);
    assert_eq!(
        p.pot_votes().into_inner(),
        vec![PotVote::new(token(), acc(7), 5), PotVote::new(token(), acc(8), 9)]
    );
    p.reset_votes();
    assert!(p.pot_votes().into_inner().is_empty());
    assert_eq!(p.elect_validators(0), vec![acc(1), acc(2)]);
}

#[test]
fn first_session_under_force_new_resets_the_mode() {
    let mut p = pallet(3, 1, &[1], &[(7, 5)], 0);
    p.set_force_era(Forcing::ForceNew);
    let _ = p.take_events();
    assert_eq!(p.new_session_genesis(0), Some(vec![acc(1), acc(7)]));
    assert_eq!(p.current_era(), Some(0));
    assert_eq!(p.start_session_index(0), Some(0));
    assert_eq!(p.force_era(), Forcing::NotForcing);
    assert_eq!(
        p.take_events(),
        vec![
            Event::SeedTrustValidatorsElected { num: 1 },
            Event::PotValidatorsElected { num: 1 },
            Event::ValidatorsElected { pot_enabled: true },
            Event::ForceEra { mode: Forcing::NotForcing },
        ]
    );
    // The forcing is spent: the era now lasts its six sessions.
    for s in 1..6 {
        assert_eq!(p.new_session(s), None);
    }
    assert_eq!(p.current_era(), Some(0));
    assert_eq!(p.new_session(6), Some(vec![acc(1), acc(7)]));
    assert_eq!(p.current_era(), Some(1));
}

#[test]
fn force_new_starts_an_era_at_any_session() {
    let mut p = pallet(3, 1, &[1], &[], 0);
    assert!(p.new_session(10).is_some());
    p.set_force_era(Forcing::ForceNew);
    // A session index behind the start of the era forces the era all the same.
    assert_eq!(p.new_session(4), Some(vec![acc(1)]));
    assert_eq!(p.current_era(), Some(1));
    assert_eq!(p.start_session_index(1), Some(4));
    assert_eq!(p.force_era(), Forcing::NotForcing);
    assert_eq!(p.new_session(9), None);
    assert_eq!(p.new_session(10), Some(vec![acc(1)]));
    assert_eq!(p.start_session_index(2), Some(10));
}
