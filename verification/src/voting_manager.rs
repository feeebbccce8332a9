//! Election of the validators of an era, and the eras and sessions that
//! decide when an election is due.
use crate::origin::{ensure_root, RawOrigin};
use crate::types::account::VoteAccountId;
use crate::types::token::SystemTokenId;
use crate::types::bounded::{bounded_votes, PotVotesResult};
use crate::types::vote::{accepts, accumulate, top_k_of, PotVote, PotVotes, StaleVote, VoteWeight};
use crate::voting_status::lemma_first_k_len;
use vstd::prelude::*;

verus! {

/// Counts sessions.
pub type SessionIndex = u32;

/// Counts eras.
pub type EraIndex = u32;

/// Whether the next era is forced or held back.
#[derive(Clone, Copy, Debug, PartialEq, Eq, Structural)]
pub enum Forcing {
    /// An era ends when it has lasted its sessions.
    NotForcing,
    /// The next session starts a new era; after that eras end as usual.
    ForceNew,
    /// No new era starts.
    ForceNone,
    /// Every session starts a new era.
    ForceAlways,
}

impl Default for Forcing {
    fn default() -> (mode: Self)
        ensures
            mode == Forcing::NotForcing,
    {
        Forcing::NotForcing
    }
}

/// What the pallet reports.
#[derive(Clone, Copy, Debug, PartialEq)]
pub enum Event {
    /// The number of seed trust validators was changed.
    SeedTrustNumChanged { old: u32, new: u32 },
    /// A seed trust validator was added to the pool.
    SeedTrustAdded { who: VoteAccountId },
    /// The validators of an era were elected, with or without a vote.
    ValidatorsElected { pot_enabled: bool },
    /// So many seed trust validators were elected.
    SeedTrustValidatorsElected { num: u32 },
    /// So many validators were elected by vote.
    PotValidatorsElected { num: u32 },
    /// The least weight that elects was changed.
    MinVotePointsChanged { old_points: VoteWeight, new_points: VoteWeight },
    /// The forcing mode was set.
    ForceEra { mode: Forcing },
}

/// Why the pallet refused an operation.
#[derive(Clone, Copy, Debug, PartialEq, Eq, Structural)]
pub enum Error {
    /// The caller is not the root origin.
    BadOrigin,
    /// There would be more seed trust validators than validators.
    SeedTrustExceedMaxValidators,
}

/// The validators that were elected by vote, era by era: the record of the
/// latest election of an era counts.
pub open spec fn era_records(s: Seq<(EraIndex, Seq<VoteAccountId>)>) -> Map<EraIndex, Seq<VoteAccountId>>
    decreases s.len(),
{
    if s.len() == 0 {
        Map::empty()
    } else {
        era_records(s.drop_last()).insert(s.last().0, s.last().1)
    }
}

/// The record of an era is the latest one that was made for it.
pub proof fn lemma_era_records_latest(s: Seq<(EraIndex, Seq<VoteAccountId>)>, era: EraIndex, i: int)
    requires
        0 <= i < s.len(),
        s[i].0 == era,
        forall|j: int| i < j < s.len() ==> (#[trigger] s[j]).0 != era,
    ensures
        era_records(s).contains_key(era),
        era_records(s)[era] == s[i].1,
    decreases s.len(),
{
    if i < s.len() - 1 {
        assert(s.last().0 != era);
        lemma_era_records_latest(s.drop_last(), era, i);
    }
}

/// An era without a record has no validators on record.
pub proof fn lemma_era_records_absent(s: Seq<(EraIndex, Seq<VoteAccountId>)>, era: EraIndex)
    requires
        forall|j: int| 0 <= j < s.len() ==> (#[trigger] s[j]).0 != era,
    ensures
        !era_records(s).contains_key(era),
    decreases s.len(),
{
    if s.len() > 0 {
        assert(s.last().0 != era);
        lemma_era_records_absent(s.drop_last(), era);
    }
}

/// What the pallet holds.
pub ghost struct State {
    /// The number of sessions an era lasts.
    pub sessions_per_era: SessionIndex,
    /// The latest era that was planned.
    pub current_era: Option<EraIndex>,
    /// The ledger of votes that elections draw on.
    pub pot_validator_pool: Seq<PotVote>,
    /// The seed trust validators, in the order they were added.
    pub seed_trust_validator_pool: Seq<VoteAccountId>,
    /// The validators elected by vote, era by era.
    pub pot_validators: Map<EraIndex, Seq<VoteAccountId>>,
    /// How many seed trust validators are elected.
    pub number_of_seed_trust_validators: u32,
    /// How many validators are elected at most.
    pub total_number_of_validators: u32,
    /// The least weight that elects.
    pub min_vote_points_threshold: VoteWeight,
    /// The session in which each era began, by era.
    pub start_session_index_per_era: Seq<SessionIndex>,
    /// The forcing mode.
    pub force_era: Forcing,
    /// What was reported, oldest first.
    pub events: Seq<Event>,
}

impl State {
    /// No more seed trust validators than validators, and every era that
    /// was planned has its first session.
    pub open spec fn valid(self) -> bool {
        &&& self.number_of_seed_trust_validators <= self.total_number_of_validators
        &&& self.start_session_index_per_era.len() == match self.current_era {
            Some(era) => era + 1,
            None => 0,
        }
    }

    /// The state with one more event.
    pub open spec fn report(self, event: Event) -> State {
        State { events: self.events.push(event), ..self }
    }

    /// How many validators the vote elects at most.
    pub open spec fn number_of_pot_validators(self) -> int {
        self.total_number_of_validators - self.number_of_seed_trust_validators
    }

    /// The seed trust validators that are elected: the first ones of the
    /// pool, as many as are to be elected, or all where the pool has fewer.
    pub open spec fn seed_slice(self) -> Seq<VoteAccountId> {
        let pool = self.seed_trust_validator_pool;
        if self.number_of_seed_trust_validators < pool.len() {
            pool.take(self.number_of_seed_trust_validators as int)
        } else {
            pool
        }
    }

    /// The validators that the vote elects: the candidates of the heaviest
    /// entries of the ledger that reach the threshold.
    pub open spec fn pot_slice(self) -> Seq<VoteAccountId> {
        if self.number_of_pot_validators() > 0 {
            top_k_of(self.pot_validator_pool, self.number_of_pot_validators(), self.min_vote_points_threshold)
        } else {
            Seq::empty()
        }
    }

    /// The validators of an era elected now: the seed trust validators,
    /// then those elected by vote.
    pub open spec fn elected(self) -> Seq<VoteAccountId> {
        self.seed_slice() + self.pot_slice()
    }

    /// The state after the election of era `era_index`: where the vote had
    /// seats to fill, its validators are recorded under the era; the
    /// election of the seed trust validators, that by vote if there was one,
    /// and the election as a whole are reported.
    pub open spec fn after_election(self, era_index: EraIndex) -> State {
        let seed = Event::SeedTrustValidatorsElected { num: self.seed_slice().len() as u32 };
        if self.number_of_pot_validators() > 0 {
            State {
                pot_validators: self.pot_validators.insert(era_index, self.pot_slice()),
                events: self.events.push(seed).push(
                    Event::PotValidatorsElected { num: self.pot_slice().len() as u32 },
                ).push(Event::ValidatorsElected { pot_enabled: true }),
                ..self
            }
        } else {
            State {
                events: self.events.push(seed).push(Event::ValidatorsElected { pot_enabled: false }),
                ..self
            }
        }
    }

    /// The era that is planned next.
    pub open spec fn next_era(self) -> int {
        match self.current_era {
            Some(era) => era + 1,
            None => 0,
        }
    }

    /// The state after a new era was planned to begin with `session_index`
    /// and its validators were elected.
    pub open spec fn after_new_era(self, session_index: SessionIndex) -> State {
        let era = self.next_era() as u32;
        State {
            current_era: Some(era),
            start_session_index_per_era: self.start_session_index_per_era.push(session_index),
            ..self
        }.after_election(era)
    }

    /// How many sessions the current era has lasted when `session_index`
    /// is planned.
    pub open spec fn era_length(self, session_index: SessionIndex) -> int
        recommends
            self.current_era is Some,
            self.valid(),
    {
        let start = self.start_session_index_per_era[self.current_era.unwrap() as int];
        if session_index >= start {
            session_index - start
        } else {
            0
        }
    }

    /// Whether planning `session_index` starts a new era: always for the
    /// first era; after that as the forcing mode says, and without forcing
    /// when the current era has lasted its sessions.
    pub open spec fn starts_new_era(self, session_index: SessionIndex) -> bool {
        match self.current_era {
            None => true,
            Some(_) => match self.force_era {
                Forcing::ForceNew => true,
                Forcing::ForceAlways => true,
                Forcing::NotForcing => self.era_length(session_index) >= self.sessions_per_era,
                Forcing::ForceNone => false,
            },
        }
    }

    /// The state after `session_index` was planned: a new era with its
    /// election where one starts; and an era that starts under `ForceNew`,
    /// the first one too, puts an end to the forcing, which is reported.
    pub open spec fn after_new_session(self, session_index: SessionIndex) -> State {
        if !self.starts_new_era(session_index) {
            self
        } else if self.force_era == Forcing::ForceNew {
            State { force_era: Forcing::NotForcing, ..self.after_new_era(session_index) }.report(
                Event::ForceEra { mode: Forcing::NotForcing },
            )
        } else {
            self.after_new_era(session_index)
        }
    }
}

/// The pallet that elects validators.
#[derive(Debug)]
pub struct Pallet {
    sessions_per_era: SessionIndex,
    current_era: Option<EraIndex>,
    pot_validator_pool: PotVotes,
    seed_trust_validator_pool: Vec<VoteAccountId>,
    pot_validators: Vec<(EraIndex, Vec<VoteAccountId>)>,
    number_of_seed_trust_validators: u32,
    total_number_of_validators: u32,
    min_vote_points_threshold: VoteWeight,
    start_session_index_per_era: Vec<SessionIndex>,
    force_era: Forcing,
    events: Vec<Event>,
}

impl View for Pallet {
    type V = State;

    closed spec fn view(&self) -> State {
        State {
            sessions_per_era: self.sessions_per_era,
            current_era: self.current_era,
            pot_validator_pool: self.pot_validator_pool@,
            seed_trust_validator_pool: self.seed_trust_validator_pool@,
            pot_validators: era_records(
                self.pot_validators@.map_values(|r: (EraIndex, Vec<VoteAccountId>)| (r.0, r.1@)),
            ),
            number_of_seed_trust_validators: self.number_of_seed_trust_validators,
            total_number_of_validators: self.total_number_of_validators,
            min_vote_points_threshold: self.min_vote_points_threshold,
            start_session_index_per_era: self.start_session_index_per_era@,
            force_era: self.force_era,
            events: self.events@,
        }
    }
}

impl Pallet {
    /// The pallet holds a valid state and a consistent ledger.
    pub closed spec fn wf(&self) -> bool {
        &&& self@.valid()
        &&& self.pot_validator_pool.wf()
    }

    /// A well-formed pallet holds a valid state.
    pub proof fn lemma_wf(&self)
        requires
            self.wf(),
        ensures
            self@.valid(),
    {
    }

    /// The pallet before its first era: eras of `sessions_per_era`
    /// sessions, no validators to elect, no votes and nothing reported.
    pub fn new(sessions_per_era: SessionIndex) -> (pallet: Self)
        ensures
            pallet.wf(),
            pallet@ == (State {
                sessions_per_era,
                current_era: None,
                pot_validator_pool: Seq::empty(),
                seed_trust_validator_pool: Seq::empty(),
                pot_validators: Map::empty(),
                number_of_seed_trust_validators: 0,
                total_number_of_validators: 0,
                min_vote_points_threshold: 0,
                start_session_index_per_era: Seq::empty(),
                force_era: Forcing::NotForcing,
                events: Seq::empty(),
            }),
    {
        let pallet = Self {
            sessions_per_era,
            current_era: None,
            pot_validator_pool: PotVotes::default(),
            seed_trust_validator_pool: Vec::new(),
            pot_validators: Vec::new(),
            number_of_seed_trust_validators: 0,
            total_number_of_validators: 0,
            min_vote_points_threshold: 0,
            start_session_index_per_era: Vec::new(),
            force_era: Forcing::NotForcing,
            events: Vec::new(),
        };
        assert(pallet.pot_validators@.map_values(|r: (EraIndex, Vec<VoteAccountId>)| (r.0, r.1@))
            =~= Seq::empty());
        pallet
    }

    /// Sets how many seed trust validators are elected.
    ///
    /// Only the root origin may do so, and there may not be more than
    /// validators in all. On an error nothing changes.
    pub fn set_seed_trust_validators_num(
        &mut self,
        origin: RawOrigin,
        num_validators: u32,
    ) -> (outcome: Result<(), Error>)
        requires
            old(self).wf(),
        ensures
            final(self).wf(),
            outcome == (if !(origin is Root) {
                Err(Error::BadOrigin)
            } else if num_validators > old(self)@.total_number_of_validators {
                Err(Error::SeedTrustExceedMaxValidators)
            } else {
                Ok(())
            }),
            outcome is Ok ==> final(self)@ == (State {
                number_of_seed_trust_validators: num_validators,
                ..old(self)@
            }).report(
                Event::SeedTrustNumChanged {
                    old: old(self)@.number_of_seed_trust_validators,
                    new: num_validators,
                },
            ),
            outcome is Err ==> final(self)@ == old(self)@,
    {
        if ensure_root(&origin).is_err() {
            return Err(Error::BadOrigin);
        }
        if num_validators > self.total_number_of_validators {
            return Err(Error::SeedTrustExceedMaxValidators);
        }
        let old = self.number_of_seed_trust_validators;
        self.number_of_seed_trust_validators = num_validators;
        self.events.push(Event::SeedTrustNumChanged { old, new: num_validators });
        Ok(())
    }

    /// Sets how many validators are elected at most.
    ///
    /// Only the root origin may do so, and there may not be fewer than seed
    /// trust validators. On an error nothing changes.
    pub fn set_total_number_of_validators(
        &mut self,
        origin: RawOrigin,
        num_validators: u32,
    ) -> (outcome: Result<(), Error>)
        requires
            old(self).wf(),
        ensures
            final(self).wf(),
            outcome == (if !(origin is Root) {
                Err(Error::BadOrigin)
            } else if num_validators < old(self)@.number_of_seed_trust_validators {
                Err(Error::SeedTrustExceedMaxValidators)
            } else {
                Ok(())
            }),
            outcome is Ok ==> final(self)@ == (State {
                total_number_of_validators: num_validators,
                ..old(self)@
            }),
            outcome is Err ==> final(self)@ == old(self)@,
    {
        if ensure_root(&origin).is_err() {
            return Err(Error::BadOrigin);
        }
        if num_validators < self.number_of_seed_trust_validators {
            return Err(Error::SeedTrustExceedMaxValidators);
        }
        self.total_number_of_validators = num_validators;
        Ok(())
    }

    /// Adds `who` to the end of the pool of seed trust validators.
    ///
    /// Only the root origin may do so. On an error nothing changes.
    pub fn add_seed_trust_validator(
        &mut self,
        origin: RawOrigin,
        who: VoteAccountId,
    ) -> (outcome: Result<(), Error>)
        requires
            old(self).wf(),
        ensures
            final(self).wf(),
            outcome == (if origin is Root {
                Ok(())
            } else {
                Err(Error::BadOrigin)
            }),
            outcome is Ok ==> final(self)@ == (State {
                seed_trust_validator_pool: old(self)@.seed_trust_validator_pool.push(who),
                ..old(self)@
            }).report(Event::SeedTrustAdded { who }),
            outcome is Err ==> final(self)@ == old(self)@,
    {
        if ensure_root(&origin).is_err() {
            return Err(Error::BadOrigin);
        }
        self.seed_trust_validator_pool.push(who);
        self.events.push(Event::SeedTrustAdded { who });
        Ok(())
    }

    /// Sets the least weight that elects.
    ///
    /// Only the root origin may do so. On an error nothing changes.
    pub fn set_min_vote_weight_threshold(
        &mut self,
        origin: RawOrigin,
        new: VoteWeight,
    ) -> (outcome: Result<(), Error>)
        requires
            old(self).wf(),
        ensures
            final(self).wf(),
            outcome == (if origin is Root {
                Ok(())
            } else {
                Err(Error::BadOrigin)
            }),
            outcome is Ok ==> final(self)@ == (State {
                min_vote_points_threshold: new,
                ..old(self)@
            }).report(
                Event::MinVotePointsChanged {
                    old_points: old(self)@.min_vote_points_threshold,
                    new_points: new,
                },
            ),
            outcome is Err ==> final(self)@ == old(self)@,
    {
        if ensure_root(&origin).is_err() {
            return Err(Error::BadOrigin);
        }
        let old = self.min_vote_points_threshold;
        self.min_vote_points_threshold = new;
        self.events.push(Event::MinVotePointsChanged { old_points: old, new_points: new });
        Ok(())
    }

    /// Sets the forcing mode, as [`Self::set_force_era`] does.
    ///
    /// Only the root origin may do so. On an error nothing changes.
    pub fn set_forcing_mode(
        &mut self,
        origin: RawOrigin,
        mode: Forcing,
    ) -> (outcome: Result<(), Error>)
        requires
            old(self).wf(),
        ensures
            final(self).wf(),
            outcome == (if origin is Root {
                Ok(())
            } else {
                Err(Error::BadOrigin)
            }),
            outcome is Ok ==> final(self)@ == (State { force_era: mode, ..old(self)@ }).report(
                Event::ForceEra { mode },
            ),
            outcome is Err ==> final(self)@ == old(self)@,
    {
        if ensure_root(&origin).is_err() {
            return Err(Error::BadOrigin);
        }
        self.set_force_era(mode);
        Ok(())
    }

    /// Sets the forcing mode and reports it.
    pub fn set_force_era(&mut self, mode: Forcing)
        requires
            old(self).wf(),
        ensures
            final(self).wf(),
            final(self)@ == (State { force_era: mode, ..old(self)@ }).report(Event::ForceEra { mode }),
    {
        self.force_era = mode;
        self.events.push(Event::ForceEra { mode });
    }

    /// Elects the seed trust validators: the first `num_seed_trust` of the
    /// pool, or all of it where it has fewer, and reports how many.
    fn do_elect_seed_trust_validators(
        &mut self,
        num_seed_trust: u32,
    ) -> (elected: Vec<VoteAccountId>)
        requires
            old(self).wf(),
            num_seed_trust == old(self)@.number_of_seed_trust_validators,
        ensures
            final(self).wf(),
            elected@ == old(self)@.seed_slice(),
            final(self)@ == old(self)@.report(
                Event::SeedTrustValidatorsElected { num: elected@.len() as u32 },
            ),
    {
        let len = self.seed_trust_validator_pool.len();
        let n: usize = if (num_seed_trust as usize) < len { num_seed_trust as usize } else { len };
        let mut res: Vec<VoteAccountId> = Vec::new();
        let mut i: usize = 0;
        while i < n
            invariant
                i <= n <= len,
                len == self.seed_trust_validator_pool@.len(),
                res@ == self.seed_trust_validator_pool@.take(i as int),
            decreases n - i,
        {
            res.push(self.seed_trust_validator_pool[i]);
            assert(self.seed_trust_validator_pool@.take(i + 1) =~= self.seed_trust_validator_pool@.take(
                i as int,
            ).push(self.seed_trust_validator_pool@[i as int]));
            i = i + 1;
        }
        assert(self.seed_trust_validator_pool@.take(len as int) =~= self.seed_trust_validator_pool@);
        self.events.push(Event::SeedTrustValidatorsElected { num: res.len() as u32 });
        res
    }

    /// Elects `num_pot` validators, at most, by vote, records them under
    /// `era_index` and reports how many.
    fn do_elect_pot_validators(
        &mut self,
        era_index: EraIndex,
        num_pot: u32,
    ) -> (elected: Vec<VoteAccountId>)
        requires
            old(self).wf(),
            num_pot > 0,
            num_pot == old(self)@.number_of_pot_validators(),
        ensures
            final(self).wf(),
            elected@ == old(self)@.pot_slice(),
            final(self)@ == (State {
                pot_validators: old(self)@.pot_validators.insert(era_index, elected@),
                ..old(self)@
            }).report(Event::PotValidatorsElected { num: elected@.len() as u32 }),
    {
        let pot_validators = self.pot_validator_pool.top_k(num_pot, self.min_vote_points_threshold);
        let res = copy_accounts(&pot_validators);
        proof {
            let before = self.pot_validators@.map_values(
                |r: (EraIndex, Vec<VoteAccountId>)| (r.0, r.1@),
            );
            let after = self.pot_validators@.push((era_index, pot_validators)).map_values(
                |r: (EraIndex, Vec<VoteAccountId>)| (r.0, r.1@),
            );
            assert(after =~= before.push((era_index, pot_validators@)));
            assert(after.drop_last() =~= before);
        }
        self.pot_validators.push((era_index, pot_validators));
        self.events.push(Event::PotValidatorsElected { num: res.len() as u32 });
        res
    }

    /// Elects the validators of era `era_index`: the seed trust validators,
    /// and behind them, where seats are left for the vote, the candidates
    /// with the most weight. There are never more than validators in all.
    pub fn elect_validators(&mut self, era_index: EraIndex) -> (validators: Vec<VoteAccountId>)
        requires
            old(self).wf(),
        ensures
            final(self).wf(),
            validators@ == old(self)@.elected(),
            validators@.len() <= old(self)@.total_number_of_validators,
            final(self)@ == old(self)@.after_election(era_index),
    {
        let total_num_validators = self.total_number_of_validators;
        let num_seed_trust = self.number_of_seed_trust_validators;
        let num_pot = total_num_validators - num_seed_trust;
        let mut pot_enabled = false;
        let mut validators = self.do_elect_seed_trust_validators(num_seed_trust);
        if num_pot != 0 {
            let mut pot_validators = self.do_elect_pot_validators(era_index, num_pot);
            proof {
                lemma_first_k_len(
                    crate::voting_status::sort_desc(
                        old(self)@.pot_validator_pool.map_values(crate::types::vote::point_of()),
                    ),
                    num_pot as int,
                    old(self)@.min_vote_points_threshold,
                );
            }
            pot_enabled = true;
            validators.append(&mut pot_validators);
        }
        assert(validators@ =~= old(self)@.elected());
        self.events.push(Event::ValidatorsElected { pot_enabled });
        validators
    }

    /// Plans the next era to begin with `session_index` and elects its
    /// validators.
    fn do_trigger_new_era(
        &mut self,
        session_index: SessionIndex,
        _is_genesis: bool,
    ) -> (validators: Option<Vec<VoteAccountId>>)
        requires
            old(self).wf(),
            old(self)@.current_era != Some(u32::MAX),
        ensures
            final(self).wf(),
            validators matches Some(v) && v@ == old(self)@.elected()
                && v@.len() <= old(self)@.total_number_of_validators,
            final(self)@ == old(self)@.after_new_era(session_index),
    {
        let new_planned_era: EraIndex = match self.current_era {
            Some(old_era) => old_era + 1,
            None => 0,
        };
        self.current_era = Some(new_planned_era);
        self.start_session_index_per_era.push(session_index);
        Some(self.elect_validators(new_planned_era))
    }

    /// Plans session `session_index`, and with it a new era where one is
    /// due; gives the validators of the new era, or `None` where the era goes
    /// on.
    ///
    /// The first session ever planned starts era 0. After that a session
    /// starts a new era always under `ForceNew` and `ForceAlways`, never
    /// under `ForceNone`, and under `NotForcing` when the current era has
    /// lasted its sessions. An era that starts under `ForceNew`, the first
    /// one too, sets the mode back to `NotForcing`.
    ///
    /// The era index is a `u32`: no era can follow era `u32::MAX`.
    fn handle_new_session(
        &mut self,
        session_index: SessionIndex,
        is_genesis: bool,
    ) -> (validators: Option<Vec<VoteAccountId>>)
        requires
            old(self).wf(),
            old(self)@.current_era != Some(u32::MAX),
        ensures
            final(self).wf(),
            validators is Some <==> old(self)@.starts_new_era(session_index),
            validators matches Some(v) ==> v@ == old(self)@.elected()
                && v@.len() <= old(self)@.total_number_of_validators,
            final(self)@ == old(self)@.after_new_session(session_index),
    {
        if let Some(current_era) = self.current_era {
            let start_session_index = self.start_session_index_per_era[current_era as usize];
            let era_length = session_index.saturating_sub(start_session_index);
            match self.force_era {
                Forcing::ForceNew => (),
                Forcing::ForceAlways => (),
                Forcing::NotForcing => {
                    if era_length < self.sessions_per_era {
                        return None;
                    }
                },
                Forcing::ForceNone => {
                    return None;
                },
            }
        }
        let maybe_new_era_validators = self.do_trigger_new_era(session_index, is_genesis);
        if maybe_new_era_validators.is_some() && matches!(self.force_era, Forcing::ForceNew) {
            self.set_force_era(Forcing::NotForcing);
        }
        maybe_new_era_validators
    }

    /// Plans session `new_index`: see [`State::after_new_session`]. Gives
    /// the validators of the new era where one starts.
    ///
    /// The era index is a `u32`: no era can follow era `u32::MAX`.
    pub fn new_session(
        &mut self,
        new_index: SessionIndex,
    ) -> (validators: Option<Vec<VoteAccountId>>)
        requires
            old(self).wf(),
            old(self)@.current_era != Some(u32::MAX),
        ensures
            final(self).wf(),
            validators is Some <==> old(self)@.starts_new_era(new_index),
            validators matches Some(v) ==> v@ == old(self)@.elected()
                && v@.len() <= old(self)@.total_number_of_validators,
            final(self)@ == old(self)@.after_new_session(new_index),
    {
        self.handle_new_session(new_index, false)
    }

    /// Plans session `new_index` at genesis, as [`Self::new_session`] does.
    pub fn new_session_genesis(
        &mut self,
        new_index: SessionIndex,
    ) -> (validators: Option<Vec<VoteAccountId>>)
        requires
            old(self).wf(),
            old(self)@.current_era != Some(u32::MAX),
        ensures
            final(self).wf(),
            validators is Some <==> old(self)@.starts_new_era(new_index),
            validators matches Some(v) ==> v@ == old(self)@.elected()
                && v@.len() <= old(self)@.total_number_of_validators,
            final(self)@ == old(self)@.after_new_session(new_index),
    {
        self.handle_new_session(new_index, true)
    }

    /// Ends session `end_index`: the rewards of that session are to be
    /// distributed.
    pub fn end_session(&self, end_index: SessionIndex) -> (call: DistributeReward)
        ensures
            call.session_index == end_index,
    {
        DistributeReward { session_index: end_index }
    }

    /// The latest era that was planned.
    pub fn current_era(&self) -> (era: Option<EraIndex>)
        ensures
            era == self@.current_era,
    {
        self.current_era
    }

    /// The forcing mode.
    pub fn force_era(&self) -> (mode: Forcing)
        ensures
            mode == self@.force_era,
    {
        self.force_era
    }

    /// The session in which era `era` began, if the era was planned.
    pub fn start_session_index(&self, era: EraIndex) -> (start: Option<SessionIndex>)
        ensures
            start == (if era < self@.start_session_index_per_era.len() {
                Some(self@.start_session_index_per_era[era as int])
            } else {
                None
            }),
    {
        if (era as usize) < self.start_session_index_per_era.len() {
            Some(self.start_session_index_per_era[era as usize])
        } else {
            None
        }
    }

    /// The validators that the vote elected for era `era_index`, if the
    /// vote has elected any for it.
    pub fn pot_validators(&self, era_index: EraIndex) -> (validators: Option<Vec<VoteAccountId>>)
        ensures
            validators is Some <==> self@.pot_validators.contains_key(era_index),
            validators matches Some(v) ==> v@ == self@.pot_validators[era_index],
    {
        let ghost records = self.pot_validators@.map_values(
            |r: (EraIndex, Vec<VoteAccountId>)| (r.0, r.1@),
        );
        let mut i = self.pot_validators.len();
        while i > 0
            invariant
                i <= self.pot_validators@.len(),
                records == self.pot_validators@.map_values(
                    |r: (EraIndex, Vec<VoteAccountId>)| (r.0, r.1@),
                ),
                forall|j: int| i <= j < records.len() ==> (#[trigger] records[j]).0 != era_index,
            decreases i,
        {
            i = i - 1;
            if self.pot_validators[i].0 == era_index {
                proof {
                    lemma_era_records_latest(records, era_index, i as int);
                }
                return Some(copy_accounts(&self.pot_validators[i].1));
            }
        }
        proof {
            lemma_era_records_absent(records, era_index);
        }
        None
    }

    /// The seed trust validators, in the order they were added.
    pub fn seed_trust_validators(&self) -> (pool: Vec<VoteAccountId>)
        ensures
            pool@ == self@.seed_trust_validator_pool,
    {
        copy_accounts(&self.seed_trust_validator_pool)
    }

    /// How many seed trust validators are elected.
    pub fn number_of_seed_trust_validators(&self) -> (n: u32)
        ensures
            n == self@.number_of_seed_trust_validators,
    {
        self.number_of_seed_trust_validators
    }

    /// How many validators are elected at most.
    pub fn total_number_of_validators(&self) -> (n: u32)
        ensures
            n == self@.total_number_of_validators,
    {
        self.total_number_of_validators
    }

    /// The least weight that elects.
    pub fn min_vote_points_threshold(&self) -> (points: VoteWeight)
        ensures
            points == self@.min_vote_points_threshold,
    {
        self.min_vote_points_threshold
    }

    /// The entries of the ledger, oldest pair first, as a bounded list.
    pub fn pot_votes(&self) -> (list: PotVotesResult)
        requires
            self.wf(),
        ensures
            bounded_votes(list) == self@.pot_validator_pool,
    {
        self.pot_validator_pool.votes()
    }

    /// Forgets every vote: the ledger starts anew, as it may at the
    /// beginning of an era.
    pub fn reset_votes(&mut self)
        requires
            old(self).wf(),
        ensures
            final(self).wf(),
            final(self)@ == (State { pot_validator_pool: Seq::empty(), ..old(self)@ }),
    {
        self.pot_validator_pool.reset();
    }

    /// Hands out what was reported since the last call, oldest first.
    pub fn take_events(&mut self) -> (events: Vec<Event>)
        requires
            old(self).wf(),
        ensures
            final(self).wf(),
            events@ == old(self)@.events,
            final(self)@ == (State { events: Seq::empty(), ..old(self)@ }),
    {
        let mut events: Vec<Event> = Vec::new();
        std::mem::swap(&mut events, &mut self.events);
        events
    }

    /// Votes `weight` for `who` in `system_token_id`, as the ledger takes
    /// it: a vote for a new pair is dropped where the ledger is full.
    pub fn update_vote_status(
        &mut self,
        who: VoteAccountId,
        system_token_id: SystemTokenId,
        weight: VoteWeight,
    ) -> (outcome: Result<(), StaleVote>)
        requires
            old(self).wf(),
        ensures
            final(self).wf(),
            outcome is Ok <==> accepts(old(self)@.pot_validator_pool, system_token_id, who),
            final(self)@ == (State {
                pot_validator_pool: accumulate(old(self)@.pot_validator_pool, system_token_id, who, weight),
                ..old(self)@
            }),
    {
        self.pot_validator_pool.update_vote_weight(system_token_id, who, weight)
    }
}

/// The entries after each vote of `votes` in turn was cast.
pub open spec fn accumulate_votes(s: Seq<PotVote>, votes: Seq<PotVote>) -> Seq<PotVote>
    decreases votes.len(),
{
    if votes.len() == 0 {
        s
    } else {
        accumulate(
            accumulate_votes(s, votes.drop_last()),
            votes.last().system_token_id,
            votes.last().account_id,
            votes.last().vote_weight,
        )
    }
}

/// What the pallet starts with.
#[derive(Debug)]
pub struct GenesisConfig {
    /// The pool of seed trust validators.
    pub seed_trust_validators: Vec<VoteAccountId>,
    /// How many validators are elected at most.
    pub total_number_of_validators: u32,
    /// How many seed trust validators are elected.
    pub number_of_seed_trust_validators: u32,
    /// The forcing mode.
    pub force_era: Forcing,
    /// Whether the ledger starts with votes.
    pub is_pot_enable_at_genesis: bool,
    /// The votes the ledger starts with.
    pub vote_status_at_genesis: Vec<PotVote>,
}

impl Default for GenesisConfig {
    /// No validators, no votes, no forcing.
    fn default() -> (config: Self)
        ensures
            config.seed_trust_validators@.len() == 0,
            config.total_number_of_validators == 0,
            config.number_of_seed_trust_validators == 0,
            config.force_era == Forcing::NotForcing,
            !config.is_pot_enable_at_genesis,
            config.vote_status_at_genesis@.len() == 0,
    {
        GenesisConfig {
            is_pot_enable_at_genesis: false,
            seed_trust_validators: Vec::new(),
            total_number_of_validators: 0,
            number_of_seed_trust_validators: 0,
            force_era: Forcing::NotForcing,
            vote_status_at_genesis: Vec::new(),
        }
    }
}

impl GenesisConfig {
    /// Whether a pallet can start with this: no more seed trust validators
    /// than validators, and votes where the ledger is to start with votes.
    pub open spec fn buildable(&self) -> bool {
        &&& self.number_of_seed_trust_validators <= self.total_number_of_validators
        &&& self.is_pot_enable_at_genesis ==> self.vote_status_at_genesis@.len() > 0
    }

    /// Whether a pallet can start with this: see [`Self::buildable`].
    pub fn is_buildable(&self) -> (buildable: bool)
        ensures
            buildable == self.buildable(),
    {
        self.number_of_seed_trust_validators <= self.total_number_of_validators && (
        !self.is_pot_enable_at_genesis || self.vote_status_at_genesis.len() > 0)
    }

    /// The pallet before its first era, with eras of `sessions_per_era`
    /// sessions and what the configuration holds; the ledger holds the votes
    /// of the configuration, cast in their order, where it is to start with
    /// votes.
    pub fn build(&self, sessions_per_era: SessionIndex) -> (pallet: Pallet)
        requires
            self.buildable(),
        ensures
            pallet.wf(),
            pallet@ == (State {
                sessions_per_era,
                current_era: None,
                pot_validator_pool: if self.is_pot_enable_at_genesis {
                    accumulate_votes(Seq::empty(), self.vote_status_at_genesis@)
                } else {
                    Seq::empty()
                },
                seed_trust_validator_pool: self.seed_trust_validators@,
                pot_validators: Map::empty(),
                number_of_seed_trust_validators: self.number_of_seed_trust_validators,
                total_number_of_validators: self.total_number_of_validators,
                min_vote_points_threshold: 0,
                start_session_index_per_era: Seq::empty(),
                force_era: self.force_era,
                events: Seq::empty(),
            }),
    {
        let mut vote_status = PotVotes::default();
        if self.is_pot_enable_at_genesis {
            let n = self.vote_status_at_genesis.len();
            let mut i: usize = 0;
            while i < n
                invariant
                    i <= n,
                    n == self.vote_status_at_genesis@.len(),
                    vote_status.wf(),
                    vote_status@ == accumulate_votes(
                        Seq::empty(),
                        self.vote_status_at_genesis@.take(i as int),
                    ),
                decreases n - i,
            {
                let v = self.vote_status_at_genesis[i];
                assert(self.vote_status_at_genesis@.take(i + 1).drop_last()
                    =~= self.vote_status_at_genesis@.take(i as int));
                let _ = vote_status.update_vote_weight(v.system_token_id, v.account_id, v.vote_weight);
                i = i + 1;
            }
            assert(self.vote_status_at_genesis@.take(n as int) =~= self.vote_status_at_genesis@);
        }
        let pallet = Pallet {
            sessions_per_era,
            current_era: None,
            pot_validator_pool: vote_status,
            seed_trust_validator_pool: copy_accounts(&self.seed_trust_validators),
            pot_validators: Vec::new(),
            number_of_seed_trust_validators: self.number_of_seed_trust_validators,
            total_number_of_validators: self.total_number_of_validators,
            min_vote_points_threshold: 0,
            start_session_index_per_era: Vec::new(),
            force_era: self.force_era,
            events: Vec::new(),
        };
        assert(pallet.pot_validators@.map_values(|r: (EraIndex, Vec<VoteAccountId>)| (r.0, r.1@))
            =~= Seq::empty());
        pallet
    }
}

/// An election never gives more validators than there are to be in all.
pub proof fn lemma_elected_within_total(state: State)
    requires
        state.valid(),
    ensures
        state.seed_slice().len() <= state.number_of_seed_trust_validators,
        state.pot_slice().len() <= state.number_of_pot_validators(),
        state.elected().len() <= state.total_number_of_validators,
{
    if state.number_of_pot_validators() > 0 {
        lemma_first_k_len(
            crate::voting_status::sort_desc(
                state.pot_validator_pool.map_values(crate::types::vote::point_of()),
            ),
            state.number_of_pot_validators(),
            state.min_vote_points_threshold,
        );
    }
}

/// Without votes an election gives the seed trust validators and no others.
pub proof fn lemma_elected_without_votes(state: State)
    requires
        state.valid(),
        state.pot_validator_pool.len() == 0,
    ensures
        state.pot_slice().len() == 0,
        state.elected() == state.seed_slice(),
{
    if state.number_of_pot_validators() > 0 {
        let points = state.pot_validator_pool.map_values(crate::types::vote::point_of());
        crate::voting_status::lemma_sort_desc_len(points);
        lemma_first_k_len(
            crate::voting_status::sort_desc(points),
            state.number_of_pot_validators(),
            state.min_vote_points_threshold,
        );
    }
    assert(state.elected() =~= state.seed_slice());
}

/// A session planned under `ForceNew` starts a new era, whatever the
/// session and whether an era has begun or not: the next era begins with
/// that session and has the validators elected now. It leaves the mode at
/// `NotForcing` and reports that last, so that the session after it is
/// decided as without forcing: it starts an era when this one has lasted its
/// sessions.
pub proof fn lemma_force_new_elects_once(
    state: State,
    session_index: SessionIndex,
    next_session: SessionIndex,
)
    requires
        state.valid(),
        state.current_era != Some(u32::MAX),
        state.force_era == Forcing::ForceNew,
    ensures
        state.starts_new_era(session_index),
        ({
            let after = state.after_new_session(session_index);
            let era = state.next_era();
            &&& after.valid()
            &&& after.current_era == Some(era as u32)
            &&& after.start_session_index_per_era.len() == era + 1
            &&& after.start_session_index_per_era[era] == session_index
            &&& after.force_era == Forcing::NotForcing
            &&& after.events.last() == (Event::ForceEra { mode: Forcing::NotForcing })
            &&& after.pot_validators == if state.number_of_pot_validators() > 0 {
                state.pot_validators.insert(era as u32, state.pot_slice())
            } else {
                state.pot_validators
            }
            &&& after.starts_new_era(next_session) <==> after.era_length(next_session)
                >= state.sessions_per_era
            &&& after.era_length(next_session) == if next_session >= session_index {
                next_session - session_index
            } else {
                0
            }
        }),
{
}

/// The call to the reward interface that the end of a session asks for.
#[derive(Clone, Copy, Debug, PartialEq, Eq, Structural)]
pub struct DistributeReward {
    /// The session whose rewards are distributed.
    pub session_index: SessionIndex,
}

/// A copy of a list of accounts.
fn copy_accounts(accounts: &Vec<VoteAccountId>) -> (copy: Vec<VoteAccountId>)
    ensures
        copy@ == accounts@,
{
    let n = accounts.len();
    let mut copy: Vec<VoteAccountId> = Vec::new();
    let mut i: usize = 0;
    while i < n
        invariant
            i <= n,
            n == accounts@.len(),
            copy@ == accounts@.take(i as int),
        decreases n - i,
    {
        copy.push(accounts[i]);
        assert(accounts@.take(i + 1) =~= accounts@.take(i as int).push(accounts@[i as int]));
        i = i + 1;
    }
    assert(accounts@.take(n as int) =~= accounts@);
    copy
}

} // verus!
