//! Validator election by proof of transaction.
//!
//! Every era the chain is run by a set of validators that is made of two
//! parts: a prefix of a list of seed trust validators that governance keeps,
//! and the candidates whose accumulated, fee-derived vote weight is highest.
//! Fees can be paid in any registered system token; the registry's exchange
//! rate scales the paid amount into vote weight.
//!
//! * [`types`]: identifiers, single votes and the bounded vote ledger.
//! * [`origin`]: who may administer.
//! * [`voting_status`]: the list of candidates and points, and its stable
//!   order by descending points.
//! * [`system_token_manager`]: the registry of system tokens and rates.
//! * [`voting_manager`]: election, eras and sessions.
//! * [`fee_payment_manager`]: the two phases of paying a fee that votes.
pub mod types;
pub mod origin;
pub mod voting_status;
pub mod system_token_manager;
pub mod voting_manager;
pub mod fee_payment_manager;
