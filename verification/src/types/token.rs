//! Identity of a system token.
use vstd::prelude::*;

verus! {

/// Identifier of a chain; the relay chain is chain `0`.
pub type ParaId = u32;

/// Identifier of the module that keeps the asset on its chain.
pub type PalletId = u8;

/// Identifier of an asset inside a module.
pub type AssetId = u32;

/// A fungible asset as one chain and one module know it.
#[derive(Clone, Copy, Debug, PartialEq, Eq, Structural, PartialOrd, Ord, Hash, Default)]
pub struct SystemTokenId {
    /// Chain on which the token is used.
    pub para_id: ParaId,
    /// Module on that chain which keeps the token.
    pub pallet_id: PalletId,
    /// Asset inside that module.
    pub asset_id: AssetId,
}

impl SystemTokenId {
    /// The token `asset_id` of module `pallet_id` on chain `para_id`.
    pub fn new(para_id: u32, pallet_id: u8, asset_id: AssetId) -> (token: Self)
        ensures
            token.para_id == para_id,
            token.pallet_id == pallet_id,
            token.asset_id == asset_id,
    {
        Self { para_id, pallet_id, asset_id }
    }
}

/// Something that knows which local assets serve as system tokens.
pub trait SystemTokenLocalAssetProvider {
    /// The local assets that are system tokens, if there are any.
    fn token_list(&self) -> Option<Vec<AssetId>>;
}

} // verus!
