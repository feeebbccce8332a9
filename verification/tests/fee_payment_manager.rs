use pot_voting::fee_payment_manager::{
    converted_fee, BalanceConversion, Credit, Event, FeeDetail, FeePaymentMetadata, Fungibles,
    HandleCredit, InitialPayment, InvalidTransaction, OnChargeSystemToken, TransactionFeeCharger,
    TransactionValidityError, VoteDetail, VotingHandler, WithdrawConsequence,
};
use pot_voting::origin::RawOrigin;
use pot_voting::system_token_manager::Pallet as Registry;
use pot_voting::types::{PotVote, PotVotes, StaleVote, SystemTokenId, VoteAccountId, MAX_VOTE_NUM};
use pot_voting::voting_manager::Pallet as VotingManager;

const PAYMENT: TransactionValidityError = TransactionValidityError::Invalid(InvalidTransaction::Payment);

fn acc(n: u8) -> VoteAccountId {
    VoteAccountId::new([n; 32])
}

fn token() -> SystemTokenId {
    SystemTokenId::new(1000, 1, 5)
}

/// One account's holdings of one asset.
struct Purse {
    asset: u32,
    balance: u128,
    refunded: u128,
}

impl Fungibles for Purse {
    fn consequence(&self, asset: u32, _who: VoteAccountId, amount: u128) -> WithdrawConsequence {
        if asset != self.asset {
            WithdrawConsequence::UnknownAsset
        } else if amount > self.balance {
            WithdrawConsequence::BalanceLow
        } else {
            WithdrawConsequence::Success
        }
    }

    fn taken(&self, asset: u32, _who: VoteAccountId, amount: u128) -> Option<Credit> {
        Some(Credit { asset, amount })
    }

    fn after_withdraw(&self, _asset: u32, _who: VoteAccountId, amount: u128) -> Self {
        Purse { asset: self.asset, balance: self.balance - amount, refunded: self.refunded }
    }

    fn after_resolve(&self, _who: VoteAccountId, credit: Credit) -> Self {
        Purse {
            asset: self.asset,
            balance: self.balance + credit.amount,
            refunded: self.refunded + credit.amount,
        }
    }

    fn can_withdraw(&self, asset: u32, _who: &VoteAccountId, amount: u128) -> WithdrawConsequence {
        if asset != self.asset {
            WithdrawConsequence::UnknownAsset
        } else if amount > self.balance {
            WithdrawConsequence::BalanceLow
        } else {
            WithdrawConsequence::Success
        }
    }

    fn withdraw(&mut self, asset: u32, _who: &VoteAccountId, amount: u128) -> Option<Credit> {
        self.balance -= amount;
        Some(Credit { asset, amount })
    }

    fn resolve(&mut self, _who: &VoteAccountId, credit: Credit) -> Result<(), Credit> {
        self.balance += credit.amount;
        self.refunded += credit.amount;
        Ok(())
    }
}

/// Two units of the asset for one of the native currency; asset 0 has no price.
struct Double;

impl BalanceConversion for Double {
    fn converted(&self, balance: u128, asset_id: u32) -> Option<u128> {
        self.to_asset_balance(balance, asset_id)
    }

    fn to_asset_balance(&self, balance: u128, asset_id: u32) -> Option<u128> {
        if asset_id == 0 {
            None
        } else {
            Some(balance / 2)
        }
    }
}

struct Kept(u128);

impl HandleCredit for Kept {
    fn after_credit(&self, credit: Credit) -> Self {
        Kept(self.0 + credit.amount)
    }

    fn handle_credit(&mut self, credit: Credit) {
        self.0 += credit.amount;
    }
}

fn charger(balance: u128) -> TransactionFeeCharger<Double, Kept, Purse> {
    TransactionFeeCharger {
        converter: Double,
        credit_handler: Kept(0),
        assets: Purse { asset: 5, balance, refunded: 0 },
    }
}

fn registry() -> Registry {
    let mut r = Registry::new(4);
    assert_eq!(r.register_system_token(RawOrigin::Root, token(), vec![], 3), Ok(()));
    r
}

#[test]
fn credit_splits_into_fee_and_refund() {
    let c = Credit { asset: 5, amount: 10 };
    assert_eq!(c.split(4), (Credit { asset: 5, amount: 4 }, Credit { asset: 5, amount: 6 }));
    assert_eq!(c.split(10), (Credit { asset: 5, amount: 10 }, Credit { asset: 5, amount: 0 }));
    assert_eq!(c.split(11), (Credit { asset: 5, amount: 10 }, Credit { asset: 5, amount: 0 }));
    assert_eq!(c.split(0), (Credit { asset: 5, amount: 0 }, Credit { asset: 5, amount: 10 }));
}

#[test]
fn converted_fee_is_one_unit_at_least() {
    assert_eq!(converted_fee(10, Some(5)), Ok(5));
    assert_eq!(converted_fee(1, Some(0)), Ok(1));
    assert_eq!(converted_fee(0, Some(0)), Ok(0));
    assert_eq!(converted_fee(0, Some(3)), Ok(3));
    assert_eq!(converted_fee(10, None), Err(PAYMENT));
}

#[test]
fn asset_payment_of_a_fee() {
    let credit = Credit { asset: 5, amount: 10 };
    assert_eq!(
        FeePaymentMetadata::asset_payment(7, Ok(credit)),
        Ok((7, InitialPayment::Asset(credit)))
    );
    assert_eq!(FeePaymentMetadata::asset_payment(7, Err(PAYMENT)), Err(PAYMENT));
    assert_eq!(InitialPayment::default(), InitialPayment::Nothing);
}

#[test]
fn charger_withdraws_the_converted_fee() {
    let mut c = charger(100);
    assert_eq!(c.withdraw_fee(&acc(1), Some(5), 20, 0), Ok(Credit { asset: 5, amount: 10 }));
    assert_eq!(c.assets.balance, 90);
    // A fee that converts to nothing costs one unit.
    assert_eq!(c.withdraw_fee(&acc(1), Some(5), 1, 0), Ok(Credit { asset: 5, amount: 1 }));
    assert_eq!(c.assets.balance, 89);
}

#[test]
fn charger_refuses_what_cannot_be_paid() {
    let mut c = charger(3);
    assert_eq!(c.withdraw_fee(&acc(1), None, 20, 0), Err(PAYMENT));
    assert_eq!(c.withdraw_fee(&acc(1), Some(0), 20, 0), Err(PAYMENT));
    assert_eq!(c.withdraw_fee(&acc(1), Some(6), 2, 0), Err(PAYMENT));
    assert_eq!(c.withdraw_fee(&acc(1), Some(5), 20, 0), Err(PAYMENT));
    assert_eq!(c.assets.balance, 3);
}

#[test]
fn charger_keeps_the_fee_and_refunds_the_rest() {
    let mut c = charger(100);
    let paid = c.withdraw_fee(&acc(1), Some(5), 20, 2).unwrap();
    assert_eq!(c.correct_and_deposit_fee(&acc(1), 12, 2, paid), Ok((6, 1)));
    assert_eq!(c.credit_handler.0, 6);
    assert_eq!(c.assets.refunded, 4);
    assert_eq!(c.assets.balance, 94);
    assert_eq!(c.correct_and_deposit_fee(&acc(1), 12, 2, Credit { asset: 0, amount: 9 }), Err(PAYMENT));
}

#[test]
fn pre_dispatch_hands_on_what_was_declared() {
    let mut c = charger(100);
    let meta = FeePaymentMetadata::from(2, Some(token()), Some(acc(9)));
    assert_eq!(
        meta.pre_dispatch(&mut c, &acc(1), 20),
        Ok((2, acc(1), InitialPayment::Asset(Credit { asset: 5, amount: 10 }), Some(token()), Some(acc(9))))
    );
    assert_eq!(c.assets.balance, 90);
}

#[test]
fn pre_dispatch_of_a_zero_fee_withdraws_nothing() {
    let mut c = charger(0);
    let meta = FeePaymentMetadata::new();
    assert_eq!(meta.pre_dispatch(&mut c, &acc(1), 0), Ok((0, acc(1), InitialPayment::Nothing, None, None)));
}

#[test]
fn pre_dispatch_rejects_when_the_fee_cannot_be_withdrawn() {
    let mut c = charger(1);
    let meta = FeePaymentMetadata::from(0, Some(token()), Some(acc(9)));
    assert_eq!(meta.pre_dispatch(&mut c, &acc(1), 20), Err(PAYMENT));
    assert_eq!(c.assets.balance, 1);
    // Without a token there is no asset to pay in.
    let mut rich = charger(100);
    assert_eq!(FeePaymentMetadata::new().pre_dispatch(&mut rich, &acc(1), 20), Err(PAYMENT));
    assert_eq!(rich.assets.balance, 100);
}

#[test]
fn scenario_fee_votes_with_the_adjusted_weight() {
    let mut c = charger(100);
    let r = registry();
    let mut votes = PotVotes::default();
    let meta = FeePaymentMetadata::from(0, Some(token()), Some(acc(9)));
    let pre = meta.pre_dispatch(&mut c, &acc(1), 20).unwrap();
    let event = FeePaymentMetadata::post_dispatch(Some(pre), &mut c, &r, &mut votes, 10).unwrap();
    assert_eq!(
        event,
        Some(Event::AssetTxFeePaid {
            fee_payer: acc(1),
            fee_detail: FeeDetail::new(token(), 10),
            tip: None,
            vote_detail: Some(VoteDetail::new(acc(9), 30)),
        })
    );
    assert_eq!(votes.votes().into_inner(), vec![PotVote::new(token(), acc(9), 30)]);
    // Ten were withdrawn, five kept, five given back.
    assert_eq!(c.credit_handler.0, 5);
    assert_eq!(c.assets.balance, 95);
}

#[test]
fn fee_without_candidate_is_reported_without_vote() {
    let r = registry();
    let mut votes = PotVotes::default();
    let event = FeePaymentMetadata::fee_paid(&r, &mut votes, acc(1), Some(token()), None, 10, 4);
    assert_eq!(
        event,
        Some(Event::AssetTxFeePaid {
            fee_payer: acc(1),
            fee_detail: FeeDetail::new(token(), 10),
            tip: Some(4),
            vote_detail: None,
        })
    );
    assert_eq!(votes.vote_count(), 0);
}

#[test]
fn fee_without_token_is_not_reported() {
    let r = registry();
    let mut votes = PotVotes::default();
    assert_eq!(FeePaymentMetadata::fee_paid(&r, &mut votes, acc(1), None, Some(acc(9)), 10, 4), None);
    assert_eq!(FeePaymentMetadata::fee_paid(&r, &mut votes, acc(1), None, None, 10, 4), None);
    assert_eq!(votes.vote_count(), 0);
}

#[test]
fn fee_in_an_unregistered_token_votes_unscaled() {
    let r = Registry::new(4);
    let mut votes = PotVotes::default();
    let event = FeePaymentMetadata::fee_paid(&r, &mut votes, acc(1), Some(token()), Some(acc(9)), 10, 0);
    assert_eq!(
        event,
        Some(Event::AssetTxFeePaid {
            fee_payer: acc(1),
            fee_detail: FeeDetail::new(token(), 10),
            tip: None,
            vote_detail: Some(VoteDetail::new(acc(9), 10)),
        })
    );
    assert_eq!(votes.votes().into_inner(), vec![PotVote::new(token(), acc(9), 10)]);
}

#[test]
fn stale_vote_leaves_the_payment_standing() {
    let r = registry();
    let mut votes = PotVotes::default();
    for i in 0..MAX_VOTE_NUM {
        assert_eq!(votes.update_vote_weight(SystemTokenId::new(1, 1, i), acc(0), 1), Ok(()));
    }
    let before = votes.votes();
    let event = FeePaymentMetadata::fee_paid(&r, &mut votes, acc(1), Some(token()), Some(acc(9)), 10, 0);
    assert_eq!(
        event,
        Some(Event::AssetTxFeePaid {
            fee_payer: acc(1),
            fee_detail: FeeDetail::new(token(), 10),
            tip: None,
            vote_detail: None,
        })
    );
    assert_eq!(votes.votes(), before);
}

#[test]
fn post_dispatch_without_asset_payment_does_nothing() {
    let mut c = charger(100);
    let r = registry();
    let mut votes = PotVotes::default();
    assert_eq!(FeePaymentMetadata::post_dispatch(None, &mut c, &r, &mut votes, 10), Ok(None));
    let nothing = (0, acc(1), InitialPayment::Nothing, Some(token()), Some(acc(9)));
    assert_eq!(FeePaymentMetadata::post_dispatch(Some(nothing), &mut c, &r, &mut votes, 10), Ok(None));
    let native = (0, acc(1), InitialPayment::Native(10), Some(token()), Some(acc(9)));
    assert_eq!(FeePaymentMetadata::post_dispatch(Some(native), &mut c, &r, &mut votes, 10), Ok(None));
    assert_eq!(votes.vote_count(), 0);
    assert_eq!(c.assets.balance, 100);
}

#[test]
fn post_dispatch_fails_when_the_fee_cannot_be_settled() {
    let mut c = charger(100);
    let r = registry();
    let mut votes = PotVotes::default();
    let pre = (0, acc(1), InitialPayment::Asset(Credit { asset: 0, amount: 10 }), Some(token()), Some(acc(9)));
    assert_eq!(FeePaymentMetadata::post_dispatch(Some(pre), &mut c, &r, &mut votes, 10), Err(PAYMENT));
    assert_eq!(votes.vote_count(), 0);
}

#[test]
fn fee_votes_into_the_pool_of_the_voting_manager() {
    let mut c = charger(100);
    let r = registry();
    let mut manager = VotingManager::new(6);
    assert_eq!(manager.set_total_number_of_validators(RawOrigin::Root, 2), Ok(()));
    let meta = FeePaymentMetadata::from(0, Some(token()), Some(acc(9)));
    let pre = meta.pre_dispatch(&mut c, &acc(1), 20).unwrap();
    assert!(FeePaymentMetadata::post_dispatch(Some(pre), &mut c, &r, &mut manager, 10).is_ok());
    assert_eq!(manager.update_pot_vote(acc(8), token(), 31), Ok(()));
    assert_eq!(manager.elect_validators(0), vec![acc(8), acc(9)]);
}

#[test]
fn ledger_is_a_voting_handler() {
    let mut votes = PotVotes::default();
    assert_eq!(votes.update_pot_vote(acc(1), token(), 4), Ok(()));
    assert_eq!(votes.update_pot_vote(acc(1), token(), 4), Ok(()));
    assert_eq!(votes.votes().into_inner(), vec![PotVote::new(token(), acc(1), 8)]);
    for i in 0..MAX_VOTE_NUM - 1 {
        assert_eq!(votes.update_pot_vote(acc(2), SystemTokenId::new(1, 1, i), 1), Ok(()));
    }
    assert_eq!(votes.update_pot_vote(acc(3), token(), 4), Err(StaleVote));
}

#[test]
fn unit_credit_handler_lets_the_fee_go() {
    let mut burn = ();
    burn.handle_credit(Credit { asset: 5, amount: 10 });
}

#[test]
fn charger_answers_as_its_hooks_say() {
    // What the conversion, the holdings and the handler say beforehand is
    // what the charger comes to.
    let mut c = charger(100);
    let who = acc(1);
    let asked = c.converter.converted(20, 5).unwrap();
    assert_eq!(asked, 10);
    assert_eq!(c.assets.consequence(5, who, asked), WithdrawConsequence::Success);
    let expected_credit = c.assets.taken(5, who, asked);
    let expected_balance = c.assets.after_withdraw(5, who, asked).balance;
    assert_eq!(c.withdraw_fee(&who, Some(5), 20, 2).ok(), expected_credit);
    assert_eq!(c.assets.balance, expected_balance);

    let paid = expected_credit.unwrap();
    let kept = c.converter.converted(12, 5).unwrap();
    let tip = c.converter.converted(2, 5).unwrap();
    let (fee_part, refund_part) = paid.split(kept);
    let expected_assets = c.assets.after_resolve(who, refund_part);
    let expected_kept = c.credit_handler.after_credit(fee_part).0;
    assert_eq!(c.correct_and_deposit_fee(&who, 12, 2, paid), Ok((kept, tip)));
    assert_eq!(c.assets.balance, expected_assets.balance);
    assert_eq!(c.assets.refunded, expected_assets.refunded);
    assert_eq!(c.credit_handler.0, expected_kept);
}

#[test]
fn charger_takes_nothing_when_the_payer_cannot_spare_the_fee() {
    let mut c = charger(3);
    let who = acc(1);
    assert_eq!(c.assets.consequence(5, who, 10), WithdrawConsequence::BalanceLow);
    assert_eq!(c.withdraw_fee(&who, Some(5), 20, 0), Err(PAYMENT));
    assert_eq!(c.assets.balance, 3);
    assert_eq!(c.assets.refunded, 0);
    assert_eq!(c.credit_handler.0, 0);
}

#[test]
fn charger_settles_nothing_when_the_tip_cannot_be_converted() {
    let mut c = charger(50);
    let who = acc(1);
    // Asset 0 has no price: neither the fee nor the tip converts.
    assert_eq!(c.converter.converted(2, 0), None);
    assert_eq!(c.correct_and_deposit_fee(&who, 12, 2, Credit { asset: 0, amount: 9 }), Err(PAYMENT));
    assert_eq!(c.assets.balance, 50);
    assert_eq!(c.assets.refunded, 0);
    assert_eq!(c.credit_handler.0, 0);
}
