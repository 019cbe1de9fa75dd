//! Settlement core of an asset marketplace: an asset registry with an
//! administrative ownership review, ascending auctions whose escrow always
//! holds exactly the winning bid, and a recorder of cross-chain balance
//! attestations.
//!
//! Every operation is a pure function from the records it reads (and the
//! clock reading it is given) to the records it writes, the fund movements
//! it asks the token service for, in order, and the notifications it emits.
//! The runtime that hosts the program performs the movements and commits
//! the records atomically.
mod keys;
mod hashing;
mod errors;
mod config;
mod asset;
mod ledger;
mod auction;
mod attestation;
mod invariants;

pub use keys::{seeds_view, AccountKey};
pub use hashing::sha256_of;
pub use errors::{message_of, DubuuMarketplaceError};
pub use config::{MarketplaceConfig, WormholeListenerConfig};
pub use asset::{
    asset_address_seeds, asset_seeds_spec, cid_fits, handle_admin_update_ownership_verification,
    handle_register_asset_and_submit_docs_ref, handle_update_asset_walrus_cid, internal_transfer_ownership,
    internal_return_unsold_asset, internal_update_asset_status_to_in_auction, returned_unsold, utf8_len, AdminVerifyOwnershipAccounts,
    AssetAccount, AssetListedStatus, AssetSold, OwnershipStatus, OwnershipVerificationUpdatedEvent,
    RegisterAssetAccounts, UpdateAssetMetadataAccounts, MAX_METADATA_CID_LENGTH,
};
pub use ledger::{closes, flow_of, is_close_of, net_flow, FundMovement, TokenAccount};
pub use auction::{
    auction_after_bid, bid_error, bid_movements, escrow_authority_seeds, escrow_authority_seeds_spec,
    escrow_expected, finalize_error, finalize_movements, finalize_notice, finalized_asset, finalized_status,
    handle_finalize_auction, handle_list_asset_for_auction, handle_place_bid, handle_settle_auction_and_transfer,
    list_error, listed_auction, listing_movements, settle_error, settle_movements, settlement_split,
    settlement_split_spec, AuctionAccount, AuctionEndNotice, AuctionEndedNoSale, AuctionEndedWinner,
    AuctionProcessStatus, BidPlacedEvent, BidPlan, FinalizeAuctionAccounts, FinalizePlan,
    ListAssetForAuctionAccounts, ListingPlan, PlaceBidAccounts, SettleAuctionAccounts, SettlementPlan,
    BPS_DENOMINATOR,
};
pub use attestation::{
    attestation_address_seeds, attestation_seeds_spec, handle_initialize_wormhole_listener,
    handle_process_wormhole_balance_attestation, u16_le, BalanceAttestationPayload, CrossChainAttestation,
    CrossChainBalanceAttestedEvent, InitializeWormholeListenerAccounts, ProcessWormholeAttestationAccounts,
};
pub use invariants::{
    bid_keeps_escrow_at_highest_bid, finalize_leaves_winning_escrow, finalize_succeeds_once, listing_opens_escrow_empty,
    low_bid_refused, settlement_conserves_value, unsold_escrow_returns_to_seller,
};
