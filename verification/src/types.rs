//! Primitive types shared by the pallets: token and account identifiers,
//! votes and the vote ledger.
pub mod token;
pub mod account;
pub mod vote;
pub mod bounded;

pub use self::account::VoteAccountId;
pub use self::bounded::PotVotesResult;
pub use self::token::{AssetId, PalletId, ParaId, SystemTokenId, SystemTokenLocalAssetProvider};
pub use self::vote::{PotVote, PotVotes, StaleVote, VoteAssetId, VoteWeight, MAX_VOTE_NUM};
