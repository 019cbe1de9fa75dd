use vstd::prelude::*;
use crate::keys::AccountKey;

verus! {

/// The marketplace-wide settings. The registry and the auction engine only
/// read them; they are written by administrative operations elsewhere.
#[derive(Clone, Copy, Debug, PartialEq, Eq)]
pub struct MarketplaceConfig {
    pub admin: AccountKey,
    pub pern_usd_star_mint: AccountKey,
    pub treasury_pern_account: AccountKey,
    pub listing_fee_usd_star: u64,
    pub sale_commission_bps: u16,
    pub is_paused: bool,
    pub bump: u8,
}

/// The one relayer allowed to submit balance attestations on the inbound
/// channel.
#[derive(Clone, Copy, Debug, PartialEq, Eq)]
pub struct WormholeListenerConfig {
    pub wormhole_authorized_relayer: AccountKey,
    pub bump: u8,
}

} // verus!
