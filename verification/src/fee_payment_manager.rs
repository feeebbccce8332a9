//! Paying the fee of a transaction in a system token, and turning the fee
//! that was paid into a vote.
//!
//! A payment has two phases. Before the transaction runs, the estimated fee
//! is withdrawn from the payer ([`FeePaymentMetadata::pre_dispatch`]); what
//! was withdrawn travels with the candidate and the token that the
//! transaction declared. After it has run, the fee is corrected to what the
//! transaction did cost, and where a candidate and a token were declared the
//! fee votes for the candidate ([`FeePaymentMetadata::post_dispatch`]).
use crate::system_token_manager::{adjusted, Pallet as SystemTokenManager, SystemToken};
use crate::types::account::VoteAccountId;
use crate::types::token::{AssetId, SystemTokenId};
use crate::types::vote::{accepts, accumulate, PotVote, PotVotes, StaleVote, VoteWeight};
use vstd::prelude::*;

verus! {

/// An amount of the native currency or of an asset.
pub type Balance = u128;

/// Why a transaction is not valid.
#[derive(Clone, Copy, Debug, PartialEq, Eq, Structural)]
pub enum InvalidTransaction {
    /// The fee cannot be paid.
    Payment,
}

/// Why a transaction was turned away.
#[derive(Clone, Copy, Debug, PartialEq, Eq, Structural)]
pub enum TransactionValidityError {
    /// The transaction is not valid.
    Invalid(InvalidTransaction),
}

/// The token a fee was paid in, and the amount.
#[derive(Clone, Copy, Debug, PartialEq)]
pub struct FeeDetail<Token, Amount> {
    system_token_id: Token,
    amount: Amount,
}

impl<Token, Amount> FeeDetail<Token, Amount> {
    /// The fee of `amount` in `system_token_id`.
    pub fn new(system_token_id: Token, amount: Amount) -> (detail: Self)
        ensures
            detail.token() == system_token_id,
            detail.paid() == amount,
    {
        Self { system_token_id, amount }
    }

    /// The token the fee was paid in.
    pub closed spec fn token(self) -> Token {
        self.system_token_id
    }

    /// The amount that was paid.
    pub closed spec fn paid(self) -> Amount {
        self.amount
    }
}

/// The candidate a fee voted for, and with which weight.
#[derive(Clone, Copy, Debug, PartialEq)]
pub struct VoteDetail<Candidate, Weight> {
    candidate: Candidate,
    weight: Weight,
}

impl<Candidate, Weight> VoteDetail<Candidate, Weight> {
    /// The vote of `weight` for `candidate`.
    pub fn new(candidate: Candidate, weight: Weight) -> (detail: Self)
        ensures
            detail.voted_for() == candidate,
            detail.voted_weight() == weight,
    {
        Self { candidate, weight }
    }

    /// The candidate voted for.
    pub closed spec fn voted_for(self) -> Candidate {
        self.candidate
    }

    /// The weight of the vote.
    pub closed spec fn voted_weight(self) -> Weight {
        self.weight
    }
}

/// An amount of an asset that was taken from an account and is not yet
/// given to anyone.
#[derive(Clone, Copy, Debug, PartialEq, Eq, Structural)]
pub struct Credit {
    /// The asset.
    pub asset: AssetId,
    /// The amount.
    pub amount: Balance,
}

impl Credit {
    /// The part of the credit that is kept for a fee of `amount`: `amount`
    /// of it, or all where the credit holds less.
    pub open spec fn kept(self, amount: Balance) -> Credit {
        Credit {
            asset: self.asset,
            amount: if amount <= self.amount {
                amount
            } else {
                self.amount
            },
        }
    }

    /// The part of the credit that is left over a fee of `amount`.
    pub open spec fn refund(self, amount: Balance) -> Credit {
        Credit { asset: self.asset, amount: (self.amount - self.kept(amount).amount) as u128 }
    }

    /// Splits the credit in two: the first holds `amount`, or all where the
    /// credit holds less, the second holds the rest.
    pub fn split(self, amount: Balance) -> (parts: (Credit, Credit))
        ensures
            parts == (self.kept(amount), self.refund(amount)),
            parts.0.asset == self.asset,
            parts.1.asset == self.asset,
            parts.0.amount == (if amount <= self.amount {
                amount
            } else {
                self.amount
            }),
            parts.0.amount + parts.1.amount == self.amount,
    {
        let first = if amount <= self.amount { amount } else { self.amount };
        (
            Credit { asset: self.asset, amount: first },
            Credit { asset: self.asset, amount: self.amount - first },
        )
    }
}

/// What was withdrawn before the transaction ran.
#[derive(Clone, Copy, Debug, PartialEq, Eq, Structural)]
pub enum InitialPayment {
    /// Nothing: the fee was zero.
    Nothing,
    /// An amount of the native currency.
    Native(Balance),
    /// An amount of an asset.
    Asset(Credit),
}

impl Default for InitialPayment {
    fn default() -> (payment: Self)
        ensures
            payment == InitialPayment::Nothing,
    {
        InitialPayment::Nothing
    }
}

/// What the pallet reports.
#[derive(Clone, Copy, Debug, PartialEq)]
pub enum Event {
    /// `fee_payer` has paid the fee `fee_detail`, which held the tip `tip`
    /// and cast the vote `vote_detail`.
    AssetTxFeePaid {
        fee_payer: VoteAccountId,
        fee_detail: FeeDetail<SystemTokenId, Balance>,
        tip: Option<Balance>,
        vote_detail: Option<VoteDetail<VoteAccountId, VoteWeight>>,
    },
}

/// Whether an amount can be taken from an account.
#[derive(Clone, Copy, Debug, PartialEq, Eq, Structural)]
pub enum WithdrawConsequence {
    /// The account holds too little.
    BalanceLow,
    /// The account would cease to exist.
    WouldDie,
    /// The asset is not known.
    UnknownAsset,
    /// The amount is frozen.
    Frozen,
    /// The amount can be taken.
    Success,
}

/// Takes part in an election by receiving votes.
pub trait VotingHandler {
    /// The entries of the ledger that receives the votes.
    spec fn pot_votes(&self) -> Seq<PotVote>;

    /// The handler is fit to receive a vote.
    spec fn ready(&self) -> bool;

    /// Votes `vote_weight` for `who` in `system_token_id`. A vote for a new
    /// pair is dropped where the ledger is full.
    fn update_pot_vote(
        &mut self,
        who: VoteAccountId,
        system_token_id: SystemTokenId,
        vote_weight: VoteWeight,
    ) -> (outcome: Result<(), StaleVote>)
        requires
            old(self).ready(),
        ensures
            final(self).ready(),
            outcome is Ok <==> accepts(old(self).pot_votes(), system_token_id, who),
            final(self).pot_votes() == accumulate(old(self).pot_votes(), system_token_id, who, vote_weight),
    ;
}

impl VotingHandler for PotVotes {
    open spec fn pot_votes(&self) -> Seq<PotVote> {
        self@
    }

    open spec fn ready(&self) -> bool {
        self.wf()
    }

    fn update_pot_vote(
        &mut self,
        who: VoteAccountId,
        system_token_id: SystemTokenId,
        vote_weight: VoteWeight,
    ) -> (outcome: Result<(), StaleVote>) {
        self.update_vote_weight(system_token_id, who, vote_weight)
    }
}

impl VotingHandler for crate::voting_manager::Pallet {
    open spec fn pot_votes(&self) -> Seq<PotVote> {
        self@.pot_validator_pool
    }

    open spec fn ready(&self) -> bool {
        self.wf()
    }

    fn update_pot_vote(
        &mut self,
        who: VoteAccountId,
        system_token_id: SystemTokenId,
        vote_weight: VoteWeight,
    ) -> (outcome: Result<(), StaleVote>) {
        self.update_vote_status(who, system_token_id, vote_weight)
    }
}

/// Withdraws, refunds and deposits the fees of transactions.
///
/// An implementation says in `withdrawn` and `settled` what its two
/// operations answer, and in `after_withdraw_fee` and `after_settle` what
/// they make of it; the operations are held to that, and to nothing more:
/// whether a fee can be withdrawn and what is kept of it is for the
/// implementation to say. Of an implementation that Verus has not read this
/// is believed, not proved.
pub trait OnChargeSystemToken: Sized {
    /// What withdrawing `fee`, which holds `tip`, from `who` in the asset
    /// given comes to.
    spec fn withdrawn(
        &self,
        who: VoteAccountId,
        system_token_asset_id: Option<AssetId>,
        fee: Balance,
        tip: Balance,
    ) -> Result<Credit, TransactionValidityError>;

    /// The charger after `fee` was asked of `who`.
    spec fn after_withdraw_fee(
        &self,
        who: VoteAccountId,
        system_token_asset_id: Option<AssetId>,
        fee: Balance,
        tip: Balance,
    ) -> Self;

    /// What settling the payment of `who` at `corrected_fee` comes to: the
    /// fee and the tip in the asset that paid.
    spec fn settled(
        &self,
        who: VoteAccountId,
        corrected_fee: Balance,
        tip: Balance,
        already_withdrawn: Credit,
    ) -> Result<(Balance, Balance), TransactionValidityError>;

    /// The charger after the payment of `who` was settled at
    /// `corrected_fee`.
    spec fn after_settle(
        &self,
        who: VoteAccountId,
        corrected_fee: Balance,
        tip: Balance,
        already_withdrawn: Credit,
    ) -> Self;

    /// Secures the fee before the transaction runs: takes `fee`, which
    /// holds `tip`, from `who` in the asset given.
    fn withdraw_fee(
        &mut self,
        who: &VoteAccountId,
        system_token_asset_id: Option<AssetId>,
        fee: Balance,
        tip: Balance,
    ) -> (withdrawn: Result<Credit, TransactionValidityError>)
        ensures
            withdrawn == old(self).withdrawn(*who, system_token_asset_id, fee, tip),
            *final(self) == old(self).after_withdraw_fee(*who, system_token_asset_id, fee, tip),
    ;

    /// Settles the fee after the transaction has run: of what was
    /// withdrawn, `corrected_fee` is kept and the rest given back to `who`.
    /// Gives the fee and the tip in the asset that paid.
    fn correct_and_deposit_fee(
        &mut self,
        who: &VoteAccountId,
        corrected_fee: Balance,
        tip: Balance,
        already_withdrawn: Credit,
    ) -> (settled: Result<(Balance, Balance), TransactionValidityError>)
        ensures
            settled == old(self).settled(*who, corrected_fee, tip, already_withdrawn),
            *final(self) == old(self).after_settle(*who, corrected_fee, tip, already_withdrawn),
    ;
}

/// Decides what becomes of the fees that were kept.
///
/// An implementation says in `after_credit` what taking a credit makes of
/// it, and `handle_credit` is held to that. Of an implementation that
/// Verus has not read this is believed, not proved.
pub trait HandleCredit: Sized {
    /// The handler after it has taken `credit`.
    spec fn after_credit(&self, credit: Credit) -> Self;

    /// Takes the fee that was kept.
    fn handle_credit(&mut self, credit: Credit)
        ensures
            *final(self) == old(self).after_credit(credit),
    ;
}

/// Lets the fee go: an amount that nobody receives is burnt.
impl HandleCredit for () {
    open spec fn after_credit(&self, credit: Credit) -> () {
        ()
    }

    fn handle_credit(&mut self, _credit: Credit) {
    }
}

/// Converts amounts of the native currency into amounts of an asset.
///
/// An implementation says in `converted` what a conversion comes to, and
/// `to_asset_balance` is held to that: the same state, balance and asset
/// give the same answer. Of an implementation that Verus has not read this
/// is believed, not proved.
pub trait BalanceConversion {
    /// What the conversion of `balance` into `asset_id` comes to.
    spec fn converted(&self, balance: Balance, asset_id: AssetId) -> Option<Balance>;

    /// The amount of `asset_id` that `balance` is worth, where it can be
    /// told.
    fn to_asset_balance(&self, balance: Balance, asset_id: AssetId) -> (amount: Option<Balance>)
        ensures
            amount == self.converted(balance, asset_id),
    ;
}

/// The accounts' holdings of assets.
///
/// An implementation says in `consequence`, `taken`, `after_withdraw` and
/// `after_resolve` what its answers are and what its operations make of it;
/// the operations are held to that, and to nothing more: whether an amount
/// can be taken, what is given for it and what becomes of the holdings is
/// for the implementation to say. Of an implementation that Verus has not
/// read this is believed, not proved.
pub trait Fungibles: Sized {
    /// What asking whether `amount` of `asset` can be taken from `who`
    /// comes to.
    spec fn consequence(&self, asset: AssetId, who: VoteAccountId, amount: Balance) -> WithdrawConsequence;

    /// What taking `amount` of `asset` from `who` gives.
    spec fn taken(&self, asset: AssetId, who: VoteAccountId, amount: Balance) -> Option<Credit>;

    /// The holdings after `amount` of `asset` was asked of `who`.
    spec fn after_withdraw(&self, asset: AssetId, who: VoteAccountId, amount: Balance) -> Self;

    /// The holdings after `credit` was offered to `who`.
    spec fn after_resolve(&self, who: VoteAccountId, credit: Credit) -> Self;

    /// Whether `amount` of `asset` can be taken from `who`.
    fn can_withdraw(
        &self,
        asset: AssetId,
        who: &VoteAccountId,
        amount: Balance,
    ) -> (consequence: WithdrawConsequence)
        ensures
            consequence == self.consequence(asset, *who, amount),
    ;

    /// Takes `amount` of `asset` from `who`.
    fn withdraw(&mut self, asset: AssetId, who: &VoteAccountId, amount: Balance) -> (credit: Option<Credit>)
        ensures
            credit == old(self).taken(asset, *who, amount),
            *final(self) == old(self).after_withdraw(asset, *who, amount),
    ;

    /// Gives `credit` to `who`; hands it back where `who` cannot receive it.
    fn resolve(&mut self, who: &VoteAccountId, credit: Credit) -> (outcome: Result<(), Credit>)
        ensures
            *final(self) == old(self).after_resolve(*who, credit),
    ;
}

/// The least amount of an asset that a fee costs: one unit, so that a fee
/// does not vanish in the conversion, and nothing where the fee is zero.
pub open spec fn min_converted_fee(fee: Balance) -> Balance {
    if fee == 0 {
        0
    } else {
        1
    }
}

/// The amount of an asset that pays `fee`, given what the conversion of the
/// fee came to: the converted amount, but the least amount at least; no
/// amount where the fee could not be converted.
pub open spec fn asset_fee(fee: Balance, converted: Option<Balance>) -> Option<Balance> {
    match converted {
        Some(amount) => Some(if amount >= min_converted_fee(fee) {
            amount
        } else {
            min_converted_fee(fee)
        }),
        None => None,
    }
}

/// The amount of an asset that pays `fee`: see [`asset_fee`].
pub fn converted_fee(
    fee: Balance,
    converted: Option<Balance>,
) -> (amount: Result<Balance, TransactionValidityError>)
    ensures
        amount is Ok <==> converted is Some,
        amount matches Ok(a) ==> Some(a) == asset_fee(fee, converted),
        amount matches Err(e) ==> e == TransactionValidityError::Invalid(InvalidTransaction::Payment),
{
    let min_converted_fee: Balance = if fee == 0 { 0 } else { 1 };
    match converted {
        Some(amount) => Ok(if amount >= min_converted_fee { amount } else { min_converted_fee }),
        None => Err(TransactionValidityError::Invalid(InvalidTransaction::Payment)),
    }
}

/// What is asked of `who` for `fee`: the asset and the amount of it that
/// pays the fee. Nothing is asked where no asset is given, where the fee
/// cannot be converted, and where the holdings say that `who` cannot spare
/// the amount.
pub open spec fn charge<CON: BalanceConversion, A: Fungibles>(
    converter: CON,
    assets: A,
    who: VoteAccountId,
    system_token_asset_id: Option<AssetId>,
    fee: Balance,
) -> Option<Credit> {
    match system_token_asset_id {
        Some(asset_id) => match asset_fee(fee, converter.converted(fee, asset_id)) {
            Some(amount) => if assets.consequence(asset_id, who, amount) is Success {
                Some(Credit { asset: asset_id, amount })
            } else {
                None
            },
            None => None,
        },
        None => None,
    }
}

/// What withdrawing `fee` from `who` comes to: the credit that the holdings
/// give for what is asked of `who`; `Payment` where nothing is asked or the
/// holdings give nothing.
pub open spec fn withdrawal<CON: BalanceConversion, A: Fungibles>(
    converter: CON,
    assets: A,
    who: VoteAccountId,
    system_token_asset_id: Option<AssetId>,
    fee: Balance,
) -> Result<Credit, TransactionValidityError> {
    match charge(converter, assets, who, system_token_asset_id, fee) {
        Some(asked) => match assets.taken(asked.asset, who, asked.amount) {
            Some(credit) => Ok(credit),
            None => Err(TransactionValidityError::Invalid(InvalidTransaction::Payment)),
        },
        None => Err(TransactionValidityError::Invalid(InvalidTransaction::Payment)),
    }
}

/// What settling a payment in `asset` at `corrected_fee` comes to: the fee
/// and the tip as amounts of the asset, the fee one unit at least unless it
/// is zero; `Payment` where one of the two cannot be converted.
pub open spec fn settlement<CON: BalanceConversion>(
    converter: CON,
    corrected_fee: Balance,
    tip: Balance,
    asset: AssetId,
) -> Result<(Balance, Balance), TransactionValidityError> {
    match (
        asset_fee(corrected_fee, converter.converted(corrected_fee, asset)),
        converter.converted(tip, asset),
    ) {
        (Some(fee), Some(converted_tip)) => Ok((fee, converted_tip)),
        _ => Err(TransactionValidityError::Invalid(InvalidTransaction::Payment)),
    }
}

/// Charges fees in assets: converts the fee into the asset, takes it from
/// the payer's holdings and hands what is kept to a credit handler.
#[derive(Debug)]
pub struct TransactionFeeCharger<CON, HC, A> {
    /// Converts native amounts into asset amounts.
    pub converter: CON,
    /// Receives the fees that are kept.
    pub credit_handler: HC,
    /// The holdings that fees are taken from.
    pub assets: A,
}

impl<CON: BalanceConversion, HC: HandleCredit, A: Fungibles> OnChargeSystemToken for TransactionFeeCharger<
    CON,
    HC,
    A,
> {
    open spec fn withdrawn(
        &self,
        who: VoteAccountId,
        system_token_asset_id: Option<AssetId>,
        fee: Balance,
        tip: Balance,
    ) -> Result<Credit, TransactionValidityError> {
        withdrawal(self.converter, self.assets, who, system_token_asset_id, fee)
    }

    open spec fn after_withdraw_fee(
        &self,
        who: VoteAccountId,
        system_token_asset_id: Option<AssetId>,
        fee: Balance,
        tip: Balance,
    ) -> Self {
        TransactionFeeCharger {
            converter: self.converter,
            credit_handler: self.credit_handler,
            assets: match charge(self.converter, self.assets, who, system_token_asset_id, fee) {
                Some(asked) => self.assets.after_withdraw(asked.asset, who, asked.amount),
                None => self.assets,
            },
        }
    }

    open spec fn settled(
        &self,
        who: VoteAccountId,
        corrected_fee: Balance,
        tip: Balance,
        already_withdrawn: Credit,
    ) -> Result<(Balance, Balance), TransactionValidityError> {
        settlement(self.converter, corrected_fee, tip, already_withdrawn.asset)
    }

    open spec fn after_settle(
        &self,
        who: VoteAccountId,
        corrected_fee: Balance,
        tip: Balance,
        already_withdrawn: Credit,
    ) -> Self {
        match settlement(self.converter, corrected_fee, tip, already_withdrawn.asset) {
            Ok(amounts) => TransactionFeeCharger {
                converter: self.converter,
                credit_handler: self.credit_handler.after_credit(already_withdrawn.kept(amounts.0)),
                assets: self.assets.after_resolve(who, already_withdrawn.refund(amounts.0)),
            },
            Err(_) => *self,
        }
    }

    /// Withdraws the fee, converted into the asset, from the payer.
    ///
    /// The amount asked is what the converter makes of the fee, one unit at
    /// least unless the fee is zero. It is asked of the holdings where these
    /// say that the payer can spare it, and what they give for it is the
    /// outcome. Fails with `Payment` where no asset is given, where the fee
    /// cannot be converted, where the payer cannot spare the amount, and
    /// where taking it gives nothing; in the first three cases the holdings
    /// are not touched. The converter and the credit handler stay as they
    /// are.
    fn withdraw_fee(
        &mut self,
        who: &VoteAccountId,
        system_token_asset_id: Option<AssetId>,
        fee: Balance,
        _tip: Balance,
    ) -> (withdrawn: Result<Credit, TransactionValidityError>)
        ensures
            withdrawn == withdrawal(
                old(self).converter,
                old(self).assets,
                *who,
                system_token_asset_id,
                fee,
            ),
            final(self).converter == old(self).converter,
            final(self).credit_handler == old(self).credit_handler,
            final(self).assets == (match charge(
                old(self).converter,
                old(self).assets,
                *who,
                system_token_asset_id,
                fee,
            ) {
                Some(asked) => old(self).assets.after_withdraw(asked.asset, *who, asked.amount),
                None => old(self).assets,
            }),
            system_token_asset_id is None ==> withdrawn is Err,
            withdrawn matches Err(e) ==> e == TransactionValidityError::Invalid(
                InvalidTransaction::Payment,
            ),
    {
        let payment = TransactionValidityError::Invalid(InvalidTransaction::Payment);
        let asset_id = match system_token_asset_id {
            Some(asset_id) => asset_id,
            None => {
                return Err(payment);
            },
        };
        let amount = match converted_fee(fee, self.converter.to_asset_balance(fee, asset_id)) {
            Ok(amount) => amount,
            Err(e) => {
                return Err(e);
            },
        };
        match self.assets.can_withdraw(asset_id, who, amount) {
            WithdrawConsequence::Success => {},
            _ => {
                return Err(payment);
            },
        }
        match self.assets.withdraw(asset_id, who, amount) {
            Some(credit) => Ok(credit),
            None => Err(payment),
        }
    }

    /// Keeps the corrected fee, converted into the asset that paid, hands
    /// it to the credit handler and gives the rest of what was withdrawn
    /// back to the payer.
    ///
    /// Gives the fee, one unit at least unless it is zero, and the tip, both
    /// as the converter makes them. Of what was paid the fee is kept, or all
    /// of it where less was paid; the rest is offered to the payer, and what
    /// is kept goes to the credit handler. Fails with `Payment` where the
    /// fee or the tip cannot be converted; then nothing is given back or
    /// handed on.
    fn correct_and_deposit_fee(
        &mut self,
        who: &VoteAccountId,
        corrected_fee: Balance,
        tip: Balance,
        paid: Credit,
    ) -> (settled: Result<(Balance, Balance), TransactionValidityError>)
        ensures
            settled == settlement(old(self).converter, corrected_fee, tip, paid.asset),
            final(self).converter == old(self).converter,
            settled is Err ==> final(self).assets == old(self).assets && final(self).credit_handler
                == old(self).credit_handler,
            settled matches Ok(amounts) ==> final(self).assets == old(self).assets.after_resolve(
                *who,
                paid.refund(amounts.0),
            ) && final(self).credit_handler == old(self).credit_handler.after_credit(
                paid.kept(amounts.0),
            ),
            settled matches Err(e) ==> e == TransactionValidityError::Invalid(
                InvalidTransaction::Payment,
            ),
    {
        let fee = match converted_fee(
            corrected_fee,
            self.converter.to_asset_balance(corrected_fee, paid.asset),
        ) {
            Ok(amount) => amount,
            Err(e) => {
                return Err(e);
            },
        };
        let converted_tip = match self.converter.to_asset_balance(tip, paid.asset) {
            Some(amount) => amount,
            None => {
                return Err(TransactionValidityError::Invalid(InvalidTransaction::Payment));
            },
        };
        let (final_fee, refund) = paid.split(fee);
        let _ = self.assets.resolve(who, refund);
        self.credit_handler.handle_credit(final_fee);
        Ok((fee, converted_tip))
    }
}

/// What travels from the first phase of a payment to the second: the tip,
/// the payer, what was withdrawn, and the token and the candidate that the
/// transaction declared.
pub type Pre = (Balance, VoteAccountId, InitialPayment, Option<SystemTokenId>, Option<VoteAccountId>);

/// What a transaction says of its fee: the tip it adds, the system token it
/// pays in and the candidate it votes for.
#[derive(Clone, Copy, Debug)]
pub struct FeePaymentMetadata {
    tip: Balance,
    system_token_id: Option<SystemTokenId>,
    vote_candidate: Option<VoteAccountId>,
}

/// The asset in which a payment in `system_token_id` is made: the asset of
/// the token, none where no token was declared.
pub open spec fn asset_of(system_token_id: Option<SystemTokenId>) -> Option<AssetId> {
    match system_token_id {
        Some(token) => Some(token.asset_id),
        None => None,
    }
}

/// The tip of a payment as it is reported: none where it is zero.
pub open spec fn reported_tip(converted_tip: Balance) -> Option<Balance> {
    if converted_tip == 0 {
        None
    } else {
        Some(converted_tip)
    }
}

/// The vote that a paid fee casts, as it is reported: the weight that
/// `actual_fee` counts for in `token`, for the candidate, where one was
/// declared and the ledger took the vote.
pub open spec fn reported_vote(
    registry: Seq<SystemToken>,
    votes: Seq<PotVote>,
    token: SystemTokenId,
    vote_candidate: Option<VoteAccountId>,
    actual_fee: Balance,
) -> Option<(VoteAccountId, VoteWeight)> {
    match vote_candidate {
        Some(candidate) => if accepts(votes, token, candidate) {
            Some((candidate, adjusted(registry, token, actual_fee)))
        } else {
            None
        },
        None => None,
    }
}

/// The ledger after a fee of `actual_fee` was paid: where a token and a
/// candidate were declared, the weight that the fee counts for in the token
/// was voted for the candidate.
pub open spec fn votes_after_fee(
    registry: Seq<SystemToken>,
    votes: Seq<PotVote>,
    system_token_id: Option<SystemTokenId>,
    vote_candidate: Option<VoteAccountId>,
    actual_fee: Balance,
) -> Seq<PotVote> {
    match (vote_candidate, system_token_id) {
        (Some(candidate), Some(token)) => accumulate(
            votes,
            token,
            candidate,
            adjusted(registry, token, actual_fee),
        ),
        _ => votes,
    }
}

/// `event` reports that `who` has paid `actual_fee` in `token`, and the vote
/// that the fee has cast on the ledger `votes`, if it has cast one.
pub open spec fn reports_payment(
    event: Event,
    registry: Seq<SystemToken>,
    votes: Seq<PotVote>,
    who: VoteAccountId,
    token: SystemTokenId,
    vote_candidate: Option<VoteAccountId>,
    actual_fee: Balance,
) -> bool {
    event matches Event::AssetTxFeePaid { fee_payer, fee_detail, tip, vote_detail } && {
        let vote = reported_vote(registry, votes, token, vote_candidate, actual_fee);
        &&& fee_payer == who
        &&& fee_detail.token() == token
        &&& fee_detail.paid() == actual_fee
        &&& vote_detail is Some <==> vote is Some
        &&& vote_detail matches Some(detail) ==> vote == Some(
            (detail.voted_for(), detail.voted_weight()),
        )
    }
}

/// The tip that `event` reports.
pub open spec fn tip_of(event: Event) -> Option<Balance> {
    match event {
        Event::AssetTxFeePaid { tip, .. } => tip,
    }
}

impl FeePaymentMetadata {
    /// A payment without tip, token or candidate.
    pub fn new() -> (metadata: Self)
        ensures
            metadata.tip() == 0,
            metadata.system_token_id() is None,
            metadata.vote_candidate() is None,
    {
        Self { tip: 0, system_token_id: None, vote_candidate: None }
    }

    /// A payment with the tip `tip`, in `system_token_id`, that votes for
    /// `vote_candidate`.
    pub fn from(
        tip: Balance,
        system_token_id: Option<SystemTokenId>,
        vote_candidate: Option<VoteAccountId>,
    ) -> (metadata: Self)
        ensures
            metadata.tip() == tip,
            metadata.system_token_id() == system_token_id,
            metadata.vote_candidate() == vote_candidate,
    {
        Self { tip, system_token_id, vote_candidate }
    }

    /// The tip.
    pub closed spec fn tip(self) -> Balance {
        self.tip
    }

    /// The token that pays.
    pub closed spec fn system_token_id(self) -> Option<SystemTokenId> {
        self.system_token_id
    }

    /// The candidate voted for.
    pub closed spec fn vote_candidate(self) -> Option<VoteAccountId> {
        self.vote_candidate
    }

    /// What the first phase of a payment that is not free comes to, given
    /// the fee and what the withdrawal of the fee came to.
    pub fn asset_payment(
        fee: Balance,
        withdrawal: Result<Credit, TransactionValidityError>,
    ) -> (outcome: Result<(Balance, InitialPayment), TransactionValidityError>)
        ensures
            outcome == (match withdrawal {
                Ok(credit) => Ok((fee, InitialPayment::Asset(credit))),
                Err(e) => Err(e),
            }),
    {
        match withdrawal {
            Ok(credit) => Ok((fee, InitialPayment::Asset(credit))),
            Err(e) => Err(e),
        }
    }

    /// Withdraws `fee`, the estimated fee with the tip in it, from `who`:
    /// nothing where the fee is zero, else through `charger`, in the asset of
    /// the token that pays.
    fn withdraw_fee<C: OnChargeSystemToken>(
        &self,
        charger: &mut C,
        who: &VoteAccountId,
        fee: Balance,
    ) -> (outcome: Result<(Balance, InitialPayment), TransactionValidityError>)
        ensures
            fee == 0 ==> outcome == Ok::<(Balance, InitialPayment), TransactionValidityError>(
                (fee, InitialPayment::Nothing),
            ) && *final(charger) == *old(charger),
            fee != 0 ==> outcome == (match old(charger).withdrawn(
                *who,
                asset_of(self.system_token_id()),
                fee,
                self.tip(),
            ) {
                Ok(credit) => Ok((fee, InitialPayment::Asset(credit))),
                Err(e) => Err(e),
            }) && *final(charger) == old(charger).after_withdraw_fee(
                *who,
                asset_of(self.system_token_id()),
                fee,
                self.tip(),
            ),
    {
        if fee == 0 {
            Ok((fee, InitialPayment::Nothing))
        } else {
            let asset_id = match self.system_token_id {
                Some(system_token_id) => Some(system_token_id.asset_id),
                None => None,
            };
            let withdrawal = charger.withdraw_fee(who, asset_id, fee, self.tip);
            Self::asset_payment(fee, withdrawal)
        }
    }

    /// The first phase: withdraws `fee`, the estimated fee with the tip in
    /// it, from `who`, and hands on what the second phase needs.
    ///
    /// Where the fee is zero the charger is not asked and nothing was
    /// withdrawn. Else the charger is asked for the fee, with the tip, in the
    /// asset of the token that pays: the credit it gives travels on, and its
    /// error is the outcome. The token and the candidate are handed on as
    /// they were declared, registered or not.
    pub fn pre_dispatch<C: OnChargeSystemToken>(
        self,
        charger: &mut C,
        who: &VoteAccountId,
        fee: Balance,
    ) -> (outcome: Result<Pre, TransactionValidityError>)
        ensures
            fee == 0 ==> outcome == Ok::<Pre, TransactionValidityError>(
                (
                    self.tip(),
                    *who,
                    InitialPayment::Nothing,
                    self.system_token_id(),
                    self.vote_candidate(),
                ),
            ) && *final(charger) == *old(charger),
            fee != 0 ==> outcome == (match old(charger).withdrawn(
                *who,
                asset_of(self.system_token_id()),
                fee,
                self.tip(),
            ) {
                Ok(credit) => Ok(
                    (
                        self.tip(),
                        *who,
                        InitialPayment::Asset(credit),
                        self.system_token_id(),
                        self.vote_candidate(),
                    ),
                ),
                Err(e) => Err(e),
            }) && *final(charger) == old(charger).after_withdraw_fee(
                *who,
                asset_of(self.system_token_id()),
                fee,
                self.tip(),
            ),
    {
        match self.withdraw_fee(charger, who, fee) {
            Ok((_fee, initial_payment)) => Ok(
                (self.tip, *who, initial_payment, self.system_token_id, self.vote_candidate),
            ),
            Err(e) => Err(e),
        }
    }

    /// Votes `vote_weight` for `candidate` in `system_token_id`.
    fn do_collect_vote<V: VotingHandler>(
        votes: &mut V,
        candidate: VoteAccountId,
        system_token_id: SystemTokenId,
        vote_weight: VoteWeight,
    ) -> (outcome: Result<(), StaleVote>)
        requires
            old(votes).ready(),
        ensures
            final(votes).ready(),
            outcome is Ok <==> accepts(old(votes).pot_votes(), system_token_id, candidate),
            final(votes).pot_votes() == accumulate(
                old(votes).pot_votes(),
                system_token_id,
                candidate,
                vote_weight,
            ),
    {
        votes.update_pot_vote(candidate, system_token_id, vote_weight)
    }

    /// Casts the vote of a fee that was paid in an asset, and gives the
    /// report of the payment.
    ///
    /// Where a candidate and a token were declared, the weight that
    /// `actual_fee` counts for in the token is voted for the candidate. The
    /// payment is reported where a token was declared: with the fee, with
    /// the tip unless it is zero, and with the vote where one was cast and
    /// the ledger took it. A vote that the full ledger drops leaves the
    /// payment as it is.
    pub fn fee_paid<V: VotingHandler>(
        registry: &SystemTokenManager,
        votes: &mut V,
        who: VoteAccountId,
        system_token_id: Option<SystemTokenId>,
        vote_candidate: Option<VoteAccountId>,
        actual_fee: Balance,
        converted_tip: Balance,
    ) -> (event: Option<Event>)
        requires
            registry.wf(),
            old(votes).ready(),
        ensures
            final(votes).ready(),
            final(votes).pot_votes() == votes_after_fee(
                registry@,
                old(votes).pot_votes(),
                system_token_id,
                vote_candidate,
                actual_fee,
            ),
            event is Some <==> system_token_id is Some,
            event matches Some(e) ==> tip_of(e) == reported_tip(converted_tip) && reports_payment(
                e,
                registry@,
                old(votes).pot_votes(),
                who,
                system_token_id.unwrap(),
                vote_candidate,
                actual_fee,
            ),
    {
        let tip: Option<Balance> = if converted_tip == 0 { None } else { Some(converted_tip) };
        match (vote_candidate, system_token_id) {
            (Some(vote_candidate), Some(system_token_id)) => {
                let weight = registry.adjusted_weight(system_token_id, actual_fee);
                let vote_detail = match Self::do_collect_vote(
                    votes,
                    vote_candidate,
                    system_token_id,
                    weight,
                ) {
                    Ok(()) => Some(VoteDetail::new(vote_candidate, weight)),
                    Err(_) => None,
                };
                Some(
                    Event::AssetTxFeePaid {
                        fee_payer: who,
                        fee_detail: FeeDetail::new(system_token_id, actual_fee),
                        tip,
                        vote_detail,
                    },
                )
            },
            (None, Some(system_token_id)) => Some(
                Event::AssetTxFeePaid {
                    fee_payer: who,
                    fee_detail: FeeDetail::new(system_token_id, actual_fee),
                    tip,
                    vote_detail: None,
                },
            ),
            _ => None,
        }
    }

    /// The second phase: settles the fee at `actual_fee`, what the
    /// transaction did cost with the tip in it, casts the vote and gives the
    /// report of the payment.
    ///
    /// Where an asset paid, `charger` is asked to settle the payer's credit
    /// at `actual_fee`, with the tip; if it fails, its error is the outcome
    /// and no vote is cast. Else the vote is cast and the payment reported
    /// as [`Self::fee_paid`] says, with the tip as the charger gave it.
    /// Where nothing was withdrawn, or the native currency paid, the charger
    /// is not asked, no vote is cast and nothing is reported.
    pub fn post_dispatch<C: OnChargeSystemToken, V: VotingHandler>(
        pre: Option<Pre>,
        charger: &mut C,
        registry: &SystemTokenManager,
        votes: &mut V,
        actual_fee: Balance,
    ) -> (outcome: Result<Option<Event>, TransactionValidityError>)
        requires
            registry.wf(),
            old(votes).ready(),
        ensures
            final(votes).ready(),
            !(pre matches Some(p) && p.2 is Asset) ==> outcome == Ok::<
                Option<Event>,
                TransactionValidityError,
            >(None) && final(votes).pot_votes() == old(votes).pot_votes() && *final(charger)
                == *old(charger),
            (pre matches Some(p) && p.2 is Asset) ==> {
                let p = pre.unwrap();
                let settled = old(charger).settled(p.1, actual_fee, p.0, p.2->Asset_0);
                &&& *final(charger) == old(charger).after_settle(
                    p.1,
                    actual_fee,
                    p.0,
                    p.2->Asset_0,
                )
                &&& outcome is Ok <==> settled is Ok
                &&& outcome matches Err(e) ==> settled == Err::<
                    (Balance, Balance),
                    TransactionValidityError,
                >(e)
                &&& outcome matches Ok(Some(e)) ==> tip_of(e) == reported_tip(settled.unwrap().1)
            },
            outcome is Err ==> final(votes).pot_votes() == old(votes).pot_votes(),
            (pre matches Some(p) && p.2 is Asset && outcome is Ok) ==> {
                let p = pre.unwrap();
                &&& final(votes).pot_votes() == votes_after_fee(
                    registry@,
                    old(votes).pot_votes(),
                    p.3,
                    p.4,
                    actual_fee,
                )
                &&& outcome.unwrap() is Some <==> p.3 is Some
                &&& outcome.unwrap() matches Some(e) ==> reports_payment(
                    e,
                    registry@,
                    old(votes).pot_votes(),
                    p.1,
                    p.3.unwrap(),
                    p.4,
                    actual_fee,
                )
            },
    {
        if let Some((tip, who, initial_payment, system_token_id, vote_candidate)) = pre {
            match initial_payment {
                InitialPayment::Native(_already_withdrawn) => Ok(None),
                InitialPayment::Asset(already_withdrawn) => {
                    match charger.correct_and_deposit_fee(&who, actual_fee, tip, already_withdrawn) {
                        Ok((_converted_fee, converted_tip)) => Ok(
                            Self::fee_paid(
                                registry,
                                votes,
                                who,
                                system_token_id,
                                vote_candidate,
                                actual_fee,
                                converted_tip,
                            ),
                        ),
                        Err(e) => Err(e),
                    }
                },
                InitialPayment::Nothing => Ok(None),
            }
        } else {
            Ok(None)
        }
    }
}

} // verus!
