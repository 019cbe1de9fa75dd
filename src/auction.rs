use vstd::prelude::*;
use crate::asset::{internal_return_unsold_asset, internal_transfer_ownership,
    internal_update_asset_status_to_in_auction, returned_unsold, AssetAccount, AssetListedStatus, AssetSold,
    OwnershipStatus};
use crate::config::MarketplaceConfig;
use crate::errors::DubuuMarketplaceError;
use crate::keys::{seeds_view, AccountKey};
use crate::ledger::{FundMovement, TokenAccount};

verus! {

/// Basis points in a whole.
pub const BPS_DENOMINATOR: u64 = 10000;

/// The phases of an auction: `Active`, then `EndedSoldPayPending` and
/// `Completed` on the sold branch, or `EndedUnsold`.
#[derive(Clone, Copy, Debug, PartialEq, Eq, Structural)]
pub enum AuctionProcessStatus {
    Active,
    EndedSoldPayPending,
    EndedUnsold,
    Completed,
}

/// One auction of one asset.
#[derive(Clone, Copy, Debug, PartialEq, Eq)]
pub struct AuctionAccount {
    pub asset_key: AccountKey,
    pub seller: AccountKey,
    pub pern_usd_star_mint: AccountKey,
    pub start_price_usd_star: u64,
    pub auction_end_timestamp: i64,
    pub highest_bid_usd_star: u64,
    pub highest_bidder: Option<AccountKey>,
    pub auction_status: AuctionProcessStatus,
    pub escrow_authority_bump: u8,
    pub bump: u8,
}

/// What the escrow of an auction holds while it runs: the winning bid once
/// there is a bidder, nothing before.
pub open spec fn escrow_expected(a: AuctionAccount) -> int {
    if a.highest_bidder is Some { a.highest_bid_usd_star as int } else { 0 }
}

/// The seeds of an auction's escrow authority: the tag `escrow_authority`,
/// the auction's address and the bump.
pub open spec fn escrow_authority_seeds_spec(auction_key: Seq<u8>, bump: u8) -> Seq<Seq<u8>> {
    seq![
        seq![101u8, 115u8, 99u8, 114u8, 111u8, 119u8, 95u8, 97u8, 117u8, 116u8, 104u8, 111u8, 114u8, 105u8, 116u8, 121u8],
        auction_key,
        seq![bump]
    ]
}

/// Builds the seeds with which the engine signs for an auction's escrow.
pub fn escrow_authority_seeds(auction_key: &AccountKey, bump: u8) -> (r: Vec<Vec<u8>>)
    ensures
        seeds_view(r@) == escrow_authority_seeds_spec(auction_key@, bump),
{
    let tag: Vec<u8> = vec![101u8, 115u8, 99u8, 114u8, 111u8, 119u8, 95u8, 97u8, 117u8, 116u8, 104u8, 111u8, 114u8, 105u8, 116u8, 121u8];
    assert(tag@ =~= escrow_authority_seeds_spec(auction_key@, bump)[0]);
    let key_bytes = auction_key.to_vec();
    let bump_bytes: Vec<u8> = vec![bump];
    assert(bump_bytes@ =~= seq![bump]);
    let mut r: Vec<Vec<u8>> = Vec::new();
    r.push(tag);
    r.push(key_bytes);
    r.push(bump_bytes);
    assert(seeds_view(r@) =~= escrow_authority_seeds_spec(auction_key@, bump));
    r
}

/// The commission and the seller's share of a sale, or `None` when the
/// arithmetic overflows or underflows a `u64`.
pub open spec fn settlement_split_spec(total: u64, commission_bps: u16) -> Option<(u64, u64)> {
    let product = total as int * commission_bps as int;
    let commission = product / 10000;
    if product > u64::MAX || commission > total {
        None
    } else {
        Some((commission as u64, (total - commission) as u64))
    }
}

/// Splits a winning bid: `commission = floor(total * commission_bps / 10000)`
/// and the seller gets the rest. Fails with `CalculationOverflow` when the
/// product does not fit a `u64` or the commission exceeds the total.
pub fn settlement_split(total: u64, commission_bps: u16) -> (r: Result<(u64, u64), DubuuMarketplaceError>)
    ensures
        match settlement_split_spec(total, commission_bps) {
            Some(p) => r == Ok::<_, DubuuMarketplaceError>(p),
            None => r == Err::<(u64, u64), _>(DubuuMarketplaceError::CalculationOverflow),
        },
{
    let bps = commission_bps as u64;
    let product = match total.checked_mul(bps) {
        Some(p) => p,
        None => return Err(DubuuMarketplaceError::CalculationOverflow),
    };
    let commission = match product.checked_div(BPS_DENOMINATOR) {
        Some(c) => c,
        None => return Err(DubuuMarketplaceError::CalculationOverflow),
    };
    let amount_to_seller = match total.checked_sub(commission) {
        Some(s) => s,
        None => return Err(DubuuMarketplaceError::CalculationOverflow),
    };
    Ok((commission, amount_to_seller))
}

/// What listing reads and writes. Keys are the accounts' addresses.
#[derive(Clone, Debug, PartialEq, Eq)]
pub struct ListAssetForAuctionAccounts {
    pub auction_key: AccountKey,
    pub asset_key: AccountKey,
    pub asset_account: AssetAccount,
    pub seller: AccountKey,
    pub marketplace_config: MarketplaceConfig,
    pub seller_pern_token_account: TokenAccount,
    pub treasury_pern_token_account: TokenAccount,
    pub auction_escrow_token_account: AccountKey,
    pub pern_usd_star_mint_account: AccountKey,
    pub auction_escrow_authority: AccountKey,
    pub auction_account_bump: u8,
    pub auction_escrow_authority_bump: u8,
}

/// A new auction and the fee payment that must succeed for it to exist.
#[derive(Clone, Debug, PartialEq, Eq)]
pub struct ListingPlan {
    pub auction_account: AuctionAccount,
    pub movements: Vec<FundMovement>,
}

/// Why listing is refused, checked in this order, or `None`.
pub open spec fn list_error(ctx: ListAssetForAuctionAccounts, duration_seconds: i64, now: i64) -> Option<
    DubuuMarketplaceError,
> {
    let cfg = ctx.marketplace_config;
    let end = now as int + duration_seconds as int;
    if ctx.asset_account.current_owner@ != ctx.seller@ {
        Some(DubuuMarketplaceError::Unauthorized)
    } else if ctx.asset_account.ownership_verification_status != OwnershipStatus::Verified {
        Some(DubuuMarketplaceError::OwnershipVerificationRequired)
    } else if ctx.asset_account.asset_listed_status != AssetListedStatus::ReadyForAuction {
        Some(DubuuMarketplaceError::AssetNotReadyForAuction)
    } else if cfg.is_paused {
        Some(DubuuMarketplaceError::MarketplacePaused)
    } else if ctx.seller_pern_token_account.mint@ != cfg.pern_usd_star_mint@ {
        Some(DubuuMarketplaceError::InvalidPerenaMint)
    } else if ctx.seller_pern_token_account.owner@ != ctx.seller@ {
        Some(DubuuMarketplaceError::InvalidTokenAccountOwner)
    } else if ctx.treasury_pern_token_account.key@ != cfg.treasury_pern_account@ {
        Some(DubuuMarketplaceError::InvalidTreasuryAccount)
    } else if ctx.treasury_pern_token_account.mint@ != cfg.pern_usd_star_mint@ {
        Some(DubuuMarketplaceError::InvalidPerenaMint)
    } else if ctx.pern_usd_star_mint_account@ != cfg.pern_usd_star_mint@ {
        Some(DubuuMarketplaceError::InvalidPerenaMint)
    } else if end < i64::MIN || end > i64::MAX {
        Some(DubuuMarketplaceError::TimestampOverflow)
    } else {
        None
    }
}

/// The auction that listing opens at clock reading `now`.
pub open spec fn listed_auction(ctx: ListAssetForAuctionAccounts, start_price: u64, duration_seconds: i64, now: i64)
    -> AuctionAccount
{
    AuctionAccount {
        asset_key: ctx.asset_key,
        seller: ctx.seller,
        pern_usd_star_mint: ctx.marketplace_config.pern_usd_star_mint,
        start_price_usd_star: start_price,
        auction_end_timestamp: (now + duration_seconds) as i64,
        highest_bid_usd_star: start_price,
        highest_bidder: None,
        auction_status: AuctionProcessStatus::Active,
        escrow_authority_bump: ctx.auction_escrow_authority_bump,
        bump: ctx.auction_account_bump,
    }
}

/// The listing fee, from the seller to the treasury.
pub open spec fn listing_movements(ctx: ListAssetForAuctionAccounts) -> Seq<FundMovement> {
    seq![FundMovement::Transfer {
        from: ctx.seller_pern_token_account.key,
        to: ctx.treasury_pern_token_account.key,
        authority: ctx.seller,
        amount: ctx.marketplace_config.listing_fee_usd_star,
    }]
}

/// Lists a verified, ready asset for auction at clock reading `now`. The
/// seller pays the listing fee to the treasury; the auction opens at the
/// starting price with no bidder and ends `duration_seconds` after `now`; the
/// asset goes into auction and references it. Refused, with nothing changed,
/// for the first reason `list_error` gives.
pub fn handle_list_asset_for_auction(
    ctx: &mut ListAssetForAuctionAccounts,
    start_price_usd_star: u64,
    duration_seconds: i64,
    now: i64,
) -> (r: Result<ListingPlan, DubuuMarketplaceError>)
    ensures
        match list_error(*old(ctx), duration_seconds, now) {
            Some(e) => r == Err::<ListingPlan, _>(e) && *final(ctx) == *old(ctx),
            None => r matches Ok(p) && {
                &&& p.auction_account == listed_auction(*old(ctx), start_price_usd_star, duration_seconds, now)
                &&& p.movements@ == listing_movements(*old(ctx))
                &&& *final(ctx) == (ListAssetForAuctionAccounts {
                    asset_account: AssetAccount {
                        asset_listed_status: AssetListedStatus::InAuction,
                        active_auction_key: Some(old(ctx).auction_key),
                        ..old(ctx).asset_account
                    },
                    ..*old(ctx)
                })
            },
        },
        old(ctx).asset_account.wf() ==> final(ctx).asset_account.wf(),
{
    let cfg = ctx.marketplace_config;
    if !ctx.asset_account.current_owner.same_as(&ctx.seller) {
        return Err(DubuuMarketplaceError::Unauthorized);
    }
    if ctx.asset_account.ownership_verification_status != OwnershipStatus::Verified {
        return Err(DubuuMarketplaceError::OwnershipVerificationRequired);
    }
    if ctx.asset_account.asset_listed_status != AssetListedStatus::ReadyForAuction {
        return Err(DubuuMarketplaceError::AssetNotReadyForAuction);
    }
    if cfg.is_paused {
        return Err(DubuuMarketplaceError::MarketplacePaused);
    }
    if !ctx.seller_pern_token_account.mint.same_as(&cfg.pern_usd_star_mint) {
        return Err(DubuuMarketplaceError::InvalidPerenaMint);
    }
    if !ctx.seller_pern_token_account.owner.same_as(&ctx.seller) {
        return Err(DubuuMarketplaceError::InvalidTokenAccountOwner);
    }
    if !ctx.treasury_pern_token_account.key.same_as(&cfg.treasury_pern_account) {
        return Err(DubuuMarketplaceError::InvalidTreasuryAccount);
    }
    if !ctx.treasury_pern_token_account.mint.same_as(&cfg.pern_usd_star_mint) {
        return Err(DubuuMarketplaceError::InvalidPerenaMint);
    }
    if !ctx.pern_usd_star_mint_account.same_as(&cfg.pern_usd_star_mint) {
        return Err(DubuuMarketplaceError::InvalidPerenaMint);
    }
    let auction_end_timestamp = match now.checked_add(duration_seconds) {
        Some(t) => t,
        None => return Err(DubuuMarketplaceError::TimestampOverflow),
    };
    let mut movements: Vec<FundMovement> = Vec::new();
    movements.push(
        FundMovement::Transfer {
            from: ctx.seller_pern_token_account.key,
            to: ctx.treasury_pern_token_account.key,
            authority: ctx.seller,
            amount: cfg.listing_fee_usd_star,
        },
    );
    assert(movements@ =~= listing_movements(*old(ctx)));
    let auction_account = AuctionAccount {
        asset_key: ctx.asset_key,
        seller: ctx.seller,
        pern_usd_star_mint: cfg.pern_usd_star_mint,
        start_price_usd_star,
        auction_end_timestamp,
        highest_bid_usd_star: start_price_usd_star,
        highest_bidder: None,
        auction_status: AuctionProcessStatus::Active,
        escrow_authority_bump: ctx.auction_escrow_authority_bump,
        bump: ctx.auction_account_bump,
    };
    let marked = internal_update_asset_status_to_in_auction(&mut ctx.asset_account, ctx.auction_key);
    match marked {
        Ok(()) => {},
        Err(e) => return Err(e),
    }
    Ok(ListingPlan { auction_account, movements })
}

/// What a bid reads and writes.
#[derive(Clone, Copy, Debug, PartialEq, Eq)]
pub struct PlaceBidAccounts {
    pub auction_key: AccountKey,
    pub auction_account: AuctionAccount,
    pub bidder: AccountKey,
    pub bidder_pern_token_account: TokenAccount,
    pub auction_escrow_token_account: AccountKey,
    pub auction_escrow_authority: AccountKey,
    pub previous_highest_bidder_token_account: Option<TokenAccount>,
}

/// Notification of an accepted bid.
#[derive(Clone, Copy, Debug, PartialEq, Eq)]
pub struct BidPlacedEvent {
    pub auction_key: AccountKey,
    pub bidder: AccountKey,
    pub amount: u64,
}

/// The transfers of an accepted bid, the seeds that sign for the escrow, and
/// the notification.
#[derive(Clone, Debug, PartialEq, Eq)]
pub struct BidPlan {
    pub movements: Vec<FundMovement>,
    pub escrow_signer_seeds: Vec<Vec<u8>>,
    pub event: BidPlacedEvent,
}

/// Why a bid of `amount` at clock reading `now` is refused, checked in this
/// order, or `None`.
pub open spec fn bid_error(ctx: PlaceBidAccounts, amount: u64, now: i64) -> Option<DubuuMarketplaceError> {
    let a = ctx.auction_account;
    if a.auction_status != AuctionProcessStatus::Active {
        Some(DubuuMarketplaceError::AuctionNotInActiveState)
    } else if ctx.bidder_pern_token_account.mint@ != a.pern_usd_star_mint@ {
        Some(DubuuMarketplaceError::InvalidPerenaMint)
    } else if ctx.bidder_pern_token_account.owner@ != ctx.bidder@ {
        Some(DubuuMarketplaceError::InvalidTokenAccountOwner)
    } else if amount <= a.highest_bid_usd_star {
        Some(DubuuMarketplaceError::BidTooLow)
    } else if now >= a.auction_end_timestamp {
        Some(DubuuMarketplaceError::AuctionEnded)
    } else {
        match a.highest_bidder {
            None => None,
            Some(prev) => match ctx.previous_highest_bidder_token_account {
                None => Some(DubuuMarketplaceError::MissingPreviousBidderAccount),
                Some(t) => if t.owner@ != prev@ {
                    Some(DubuuMarketplaceError::InvalidTokenAccountOwner)
                } else if t.mint@ != a.pern_usd_star_mint@ {
                    Some(DubuuMarketplaceError::InvalidPerenaMint)
                } else {
                    None
                },
            },
        }
    }
}

/// The transfers of an accepted bid, in order: the previous highest bid back
/// out of escrow to its bidder, if there is one, then the new bid into escrow.
pub open spec fn bid_movements(ctx: PlaceBidAccounts, amount: u64) -> Seq<FundMovement> {
    let pull = FundMovement::Transfer {
        from: ctx.bidder_pern_token_account.key,
        to: ctx.auction_escrow_token_account,
        authority: ctx.bidder,
        amount,
    };
    if ctx.auction_account.highest_bidder is Some && ctx.previous_highest_bidder_token_account is Some {
        seq![
            FundMovement::Transfer {
                from: ctx.auction_escrow_token_account,
                to: ctx.previous_highest_bidder_token_account->Some_0.key,
                authority: ctx.auction_escrow_authority,
                amount: ctx.auction_account.highest_bid_usd_star,
            },
            pull
        ]
    } else {
        seq![pull]
    }
}

/// The auction once `bidder`'s bid of `amount` is the highest.
pub open spec fn auction_after_bid(a: AuctionAccount, bidder: AccountKey, amount: u64) -> AuctionAccount {
    AuctionAccount { highest_bidder: Some(bidder), highest_bid_usd_star: amount, ..a }
}

/// Places a bid at clock reading `now`. The bid must be strictly above the
/// highest so far and come before the end. The previous highest bid is
/// refunded out of escrow before the new one is pulled in, and the auction
/// records the new bid and bidder only with both transfers. Refused, with
/// nothing changed, for the first reason `bid_error` gives.
pub fn handle_place_bid(ctx: &mut PlaceBidAccounts, bid_amount_usd_star: u64, now: i64) -> (r: Result<
    BidPlan,
    DubuuMarketplaceError,
>)
    ensures
        bid_amount_usd_star <= old(ctx).auction_account.highest_bid_usd_star ==> r is Err && *final(ctx) == *old(ctx),
        match bid_error(*old(ctx), bid_amount_usd_star, now) {
            Some(e) => r == Err::<BidPlan, _>(e) && *final(ctx) == *old(ctx),
            None => r matches Ok(p) && {
                &&& p.movements@ == bid_movements(*old(ctx), bid_amount_usd_star)
                &&& seeds_view(p.escrow_signer_seeds@) == escrow_authority_seeds_spec(
                    old(ctx).auction_key@,
                    old(ctx).auction_account.escrow_authority_bump,
                )
                &&& p.event == (BidPlacedEvent {
                    auction_key: old(ctx).auction_key,
                    bidder: old(ctx).bidder,
                    amount: bid_amount_usd_star,
                })
                &&& *final(ctx) == (PlaceBidAccounts {
                    auction_account: auction_after_bid(old(ctx).auction_account, old(ctx).bidder, bid_amount_usd_star),
                    ..*old(ctx)
                })
            },
        },
{
    let a = ctx.auction_account;
    if a.auction_status != AuctionProcessStatus::Active {
        return Err(DubuuMarketplaceError::AuctionNotInActiveState);
    }
    if !ctx.bidder_pern_token_account.mint.same_as(&a.pern_usd_star_mint) {
        return Err(DubuuMarketplaceError::InvalidPerenaMint);
    }
    if !ctx.bidder_pern_token_account.owner.same_as(&ctx.bidder) {
        return Err(DubuuMarketplaceError::InvalidTokenAccountOwner);
    }
    if bid_amount_usd_star <= a.highest_bid_usd_star {
        return Err(DubuuMarketplaceError::BidTooLow);
    }
    if now >= a.auction_end_timestamp {
        return Err(DubuuMarketplaceError::AuctionEnded);
    }
    let escrow_signer_seeds = escrow_authority_seeds(&ctx.auction_key, a.escrow_authority_bump);
    let mut movements: Vec<FundMovement> = Vec::new();
    match a.highest_bidder {
        None => {},
        Some(prev) => {
            let t = match ctx.previous_highest_bidder_token_account {
                Some(t) => t,
                None => return Err(DubuuMarketplaceError::MissingPreviousBidderAccount),
            };
            if !t.owner.same_as(&prev) {
                return Err(DubuuMarketplaceError::InvalidTokenAccountOwner);
            }
            if !t.mint.same_as(&a.pern_usd_star_mint) {
                return Err(DubuuMarketplaceError::InvalidPerenaMint);
            }
            movements.push(
                FundMovement::Transfer {
                    from: ctx.auction_escrow_token_account,
                    to: t.key,
                    authority: ctx.auction_escrow_authority,
                    amount: a.highest_bid_usd_star,
                },
            );
        },
    }
    movements.push(
        FundMovement::Transfer {
            from: ctx.bidder_pern_token_account.key,
            to: ctx.auction_escrow_token_account,
            authority: ctx.bidder,
            amount: bid_amount_usd_star,
        },
    );
    assert(movements@ =~= bid_movements(*old(ctx), bid_amount_usd_star));
    ctx.auction_account.highest_bidder = Some(ctx.bidder);
    ctx.auction_account.highest_bid_usd_star = bid_amount_usd_star;
    let event = BidPlacedEvent { auction_key: ctx.auction_key, bidder: ctx.bidder, amount: bid_amount_usd_star };
    Ok(BidPlan { movements, escrow_signer_seeds, event })
}

/// What finalizing reads and writes.
#[derive(Clone, Debug, PartialEq, Eq)]
pub struct FinalizeAuctionAccounts {
    pub auction_key: AccountKey,
    pub auction_account: AuctionAccount,
    pub asset_key: AccountKey,
    pub asset_account: AssetAccount,
    pub signer: AccountKey,
    pub auction_escrow_token_account: AccountKey,
    pub auction_escrow_authority: AccountKey,
    pub highest_bidder_token_account_for_refund: Option<TokenAccount>,
    pub seller_rent_recipient: AccountKey,
}

/// Notification that an auction ended with a winner.
#[derive(Clone, Copy, Debug, PartialEq, Eq)]
pub struct AuctionEndedWinner {
    pub auction_key: AccountKey,
    pub winner: AccountKey,
    pub winning_bid: u64,
}

/// Notification that an auction ended without a sale.
#[derive(Clone, Copy, Debug, PartialEq, Eq)]
pub struct AuctionEndedNoSale {
    pub auction_key: AccountKey,
}

/// The notification that finalizing emits.
#[derive(Clone, Copy, Debug, PartialEq, Eq)]
pub enum AuctionEndNotice {
    Winner(AuctionEndedWinner),
    NoSale(AuctionEndedNoSale),
}

/// What finalizing asks of the token service, and its notification.
#[derive(Clone, Debug, PartialEq, Eq)]
pub struct FinalizePlan {
    pub movements: Vec<FundMovement>,
    pub escrow_signer_seeds: Vec<Vec<u8>>,
    pub notice: AuctionEndNotice,
}

/// Why finalizing at clock reading `now` is refused, checked in this order,
/// or `None`.
pub open spec fn finalize_error(ctx: FinalizeAuctionAccounts, now: i64) -> Option<DubuuMarketplaceError> {
    let a = ctx.auction_account;
    if ctx.seller_rent_recipient@ != a.seller@ {
        Some(DubuuMarketplaceError::InvalidSellerAccountForRent)
    } else if ctx.asset_key@ != a.asset_key@ {
        Some(DubuuMarketplaceError::InvalidAssetAccount)
    } else if a.auction_status != AuctionProcessStatus::Active {
        Some(DubuuMarketplaceError::AuctionNotInActiveState)
    } else if now < a.auction_end_timestamp {
        Some(DubuuMarketplaceError::AuctionNotEnded)
    } else {
        None
    }
}

/// The status an auction takes when it is finalized.
pub open spec fn finalized_status(a: AuctionAccount) -> AuctionProcessStatus {
    if a.highest_bidder is Some {
        AuctionProcessStatus::EndedSoldPayPending
    } else {
        AuctionProcessStatus::EndedUnsold
    }
}

/// What finalizing asks of the token service: nothing when there is a
/// winner (the escrow keeps the bid for settlement), else closing the escrow
/// to the seller.
pub open spec fn finalize_movements(ctx: FinalizeAuctionAccounts) -> Seq<FundMovement> {
    if ctx.auction_account.highest_bidder is Some {
        seq![]
    } else {
        seq![FundMovement::Close {
            account: ctx.auction_escrow_token_account,
            destination: ctx.seller_rent_recipient,
            authority: ctx.auction_escrow_authority,
        }]
    }
}

/// The notification of finalizing.
pub open spec fn finalize_notice(ctx: FinalizeAuctionAccounts) -> AuctionEndNotice {
    match ctx.auction_account.highest_bidder {
        Some(w) => AuctionEndNotice::Winner(
            AuctionEndedWinner {
                auction_key: ctx.auction_key,
                winner: w,
                winning_bid: ctx.auction_account.highest_bid_usd_star,
            },
        ),
        None => AuctionEndNotice::NoSale(AuctionEndedNoSale { auction_key: ctx.auction_key }),
    }
}

/// The asset once its auction is finalized: kept as it is for settlement
/// when there is a winner, returned for relisting when there is none.
pub open spec fn finalized_asset(ctx: FinalizeAuctionAccounts) -> AssetAccount {
    if ctx.auction_account.highest_bidder is Some {
        ctx.asset_account
    } else {
        returned_unsold(ctx.asset_account)
    }
}

/// Ends an active auction at or after its end time (clock reading `now`).
/// With a bidder it awaits settlement; without one it ends unsold, its
/// escrow is closed to the seller and the asset is ready for auction again. Refused, with nothing changed, for the
/// first reason `finalize_error` gives.
pub fn handle_finalize_auction(ctx: &mut FinalizeAuctionAccounts, now: i64) -> (r: Result<
    FinalizePlan,
    DubuuMarketplaceError,
>)
    ensures
        match finalize_error(*old(ctx), now) {
            Some(e) => r == Err::<FinalizePlan, _>(e) && *final(ctx) == *old(ctx),
            None => r matches Ok(p) && {
                &&& p.movements@ == finalize_movements(*old(ctx))
                &&& seeds_view(p.escrow_signer_seeds@) == escrow_authority_seeds_spec(
                    old(ctx).auction_key@,
                    old(ctx).auction_account.escrow_authority_bump,
                )
                &&& p.notice == finalize_notice(*old(ctx))
                &&& *final(ctx) == (FinalizeAuctionAccounts {
                    auction_account: AuctionAccount {
                        auction_status: finalized_status(old(ctx).auction_account),
                        ..old(ctx).auction_account
                    },
                    asset_account: finalized_asset(*old(ctx)),
                    ..*old(ctx)
                })
            },
        },
        old(ctx).asset_account.wf() ==> final(ctx).asset_account.wf(),
{
    let a = ctx.auction_account;
    if !ctx.seller_rent_recipient.same_as(&a.seller) {
        return Err(DubuuMarketplaceError::InvalidSellerAccountForRent);
    }
    if !ctx.asset_key.same_as(&a.asset_key) {
        return Err(DubuuMarketplaceError::InvalidAssetAccount);
    }
    if a.auction_status != AuctionProcessStatus::Active {
        return Err(DubuuMarketplaceError::AuctionNotInActiveState);
    }
    if now < a.auction_end_timestamp {
        return Err(DubuuMarketplaceError::AuctionNotEnded);
    }
    let escrow_signer_seeds = escrow_authority_seeds(&ctx.auction_key, a.escrow_authority_bump);
    let mut movements: Vec<FundMovement> = Vec::new();
    let notice = match a.highest_bidder {
        Some(w) => {
            ctx.auction_account.auction_status = AuctionProcessStatus::EndedSoldPayPending;
            AuctionEndNotice::Winner(
                AuctionEndedWinner { auction_key: ctx.auction_key, winner: w, winning_bid: a.highest_bid_usd_star },
            )
        },
        None => {
            ctx.auction_account.auction_status = AuctionProcessStatus::EndedUnsold;
            internal_return_unsold_asset(&mut ctx.asset_account);
            movements.push(
                FundMovement::Close {
                    account: ctx.auction_escrow_token_account,
                    destination: ctx.seller_rent_recipient,
                    authority: ctx.auction_escrow_authority,
                },
            );
            AuctionEndNotice::NoSale(AuctionEndedNoSale { auction_key: ctx.auction_key })
        },
    };
    assert(movements@ =~= finalize_movements(*old(ctx)));
    Ok(FinalizePlan { movements, escrow_signer_seeds, notice })
}

/// What settlement reads and writes.
#[derive(Clone, Debug, PartialEq, Eq)]
pub struct SettleAuctionAccounts {
    pub auction_key: AccountKey,
    pub auction_account: AuctionAccount,
    pub highest_bidder: AccountKey,
    pub asset_key: AccountKey,
    pub asset_account: AssetAccount,
    pub marketplace_config: MarketplaceConfig,
    pub auction_escrow_token_account: AccountKey,
    pub auction_escrow_authority: AccountKey,
    pub seller_token_account: TokenAccount,
    pub treasury_pern_token_account: TokenAccount,
}

/// The payouts of a settlement, what the token service must do for them,
/// and the notification of the sale.
#[derive(Clone, Debug, PartialEq, Eq)]
pub struct SettlementPlan {
    pub commission: u64,
    pub amount_to_seller: u64,
    pub movements: Vec<FundMovement>,
    pub escrow_signer_seeds: Vec<Vec<u8>>,
    pub sold: AssetSold,
}

/// Why settlement is refused, checked in this order, or `None`.
pub open spec fn settle_error(ctx: SettleAuctionAccounts) -> Option<DubuuMarketplaceError> {
    let a = ctx.auction_account;
    let cfg = ctx.marketplace_config;
    if a.auction_status != AuctionProcessStatus::EndedSoldPayPending {
        Some(DubuuMarketplaceError::AuctionNotInSettlementState)
    } else if !(a.highest_bidder matches Some(w) && w@ == ctx.highest_bidder@) {
        Some(DubuuMarketplaceError::NotAuctionWinner)
    } else if ctx.asset_key@ != a.asset_key@ {
        Some(DubuuMarketplaceError::InvalidAssetAccount)
    } else if ctx.seller_token_account.owner@ != a.seller@ {
        Some(DubuuMarketplaceError::InvalidTokenAccountOwner)
    } else if ctx.seller_token_account.mint@ != a.pern_usd_star_mint@ {
        Some(DubuuMarketplaceError::InvalidPerenaMint)
    } else if ctx.treasury_pern_token_account.key@ != cfg.treasury_pern_account@ {
        Some(DubuuMarketplaceError::InvalidTreasuryAccount)
    } else if ctx.treasury_pern_token_account.mint@ != a.pern_usd_star_mint@ {
        Some(DubuuMarketplaceError::InvalidPerenaMint)
    } else if settlement_split_spec(a.highest_bid_usd_star, cfg.sale_commission_bps) is None {
        Some(DubuuMarketplaceError::CalculationOverflow)
    } else {
        None
    }
}

/// What settlement asks of the token service, in order: the seller's share
/// out of escrow (unless zero), the commission to the treasury (unless
/// zero), then closing the escrow to the winner.
pub open spec fn settle_movements(ctx: SettleAuctionAccounts, commission: u64, amount_to_seller: u64) -> Seq<
    FundMovement,
> {
    let escrow = ctx.auction_escrow_token_account;
    let auth = ctx.auction_escrow_authority;
    let to_seller = if amount_to_seller > 0 {
        seq![FundMovement::Transfer { from: escrow, to: ctx.seller_token_account.key, authority: auth, amount: amount_to_seller }]
    } else {
        seq![]
    };
    let to_treasury = if commission > 0 {
        seq![FundMovement::Transfer { from: escrow, to: ctx.treasury_pern_token_account.key, authority: auth, amount: commission }]
    } else {
        seq![]
    };
    to_seller + to_treasury + seq![FundMovement::Close { account: escrow, destination: ctx.highest_bidder, authority: auth }]
}

/// Settles a sold auction: pays the seller and the treasury out of escrow,
/// closes the escrow to the winner, hands the asset to the winner and
/// completes the auction. Refused, with nothing changed, for the first
/// reason `settle_error` gives.
pub fn handle_settle_auction_and_transfer(ctx: &mut SettleAuctionAccounts) -> (r: Result<
    SettlementPlan,
    DubuuMarketplaceError,
>)
    ensures
        r is Ok ==> old(ctx).auction_account.auction_status == AuctionProcessStatus::EndedSoldPayPending,
        match settle_error(*old(ctx)) {
            Some(e) => r == Err::<SettlementPlan, _>(e) && *final(ctx) == *old(ctx),
            None => r matches Ok(p) && {
                let a = old(ctx).auction_account;
                let split = settlement_split_spec(a.highest_bid_usd_star, old(ctx).marketplace_config.sale_commission_bps);
                &&& split == Some((p.commission, p.amount_to_seller))
                &&& p.movements@ == settle_movements(*old(ctx), p.commission, p.amount_to_seller)
                &&& seeds_view(p.escrow_signer_seeds@) == escrow_authority_seeds_spec(
                    old(ctx).auction_key@,
                    a.escrow_authority_bump,
                )
                &&& p.sold == (AssetSold {
                    asset_key: old(ctx).asset_key,
                    new_owner: old(ctx).highest_bidder,
                    walrus_main_metadata_cid: old(ctx).asset_account.walrus_main_metadata_cid,
                })
                &&& *final(ctx) == (SettleAuctionAccounts {
                    auction_account: AuctionAccount { auction_status: AuctionProcessStatus::Completed, ..a },
                    asset_account: AssetAccount {
                        current_owner: old(ctx).highest_bidder,
                        asset_listed_status: AssetListedStatus::Sold,
                        active_auction_key: None,
                        ..old(ctx).asset_account
                    },
                    ..*old(ctx)
                })
            },
        },
        old(ctx).asset_account.wf() ==> final(ctx).asset_account.wf(),
{
    let a = ctx.auction_account;
    let cfg = ctx.marketplace_config;
    if a.auction_status != AuctionProcessStatus::EndedSoldPayPending {
        return Err(DubuuMarketplaceError::AuctionNotInSettlementState);
    }
    let is_winner = match a.highest_bidder {
        Some(w) => w.same_as(&ctx.highest_bidder),
        None => false,
    };
    if !is_winner {
        return Err(DubuuMarketplaceError::NotAuctionWinner);
    }
    if !ctx.asset_key.same_as(&a.asset_key) {
        return Err(DubuuMarketplaceError::InvalidAssetAccount);
    }
    if !ctx.seller_token_account.owner.same_as(&a.seller) {
        return Err(DubuuMarketplaceError::InvalidTokenAccountOwner);
    }
    if !ctx.seller_token_account.mint.same_as(&a.pern_usd_star_mint) {
        return Err(DubuuMarketplaceError::InvalidPerenaMint);
    }
    if !ctx.treasury_pern_token_account.key.same_as(&cfg.treasury_pern_account) {
        return Err(DubuuMarketplaceError::InvalidTreasuryAccount);
    }
    if !ctx.treasury_pern_token_account.mint.same_as(&a.pern_usd_star_mint) {
        return Err(DubuuMarketplaceError::InvalidPerenaMint);
    }
    let (commission, amount_to_seller) = match settlement_split(a.highest_bid_usd_star, cfg.sale_commission_bps) {
        Ok(p) => p,
        Err(e) => return Err(e),
    };
    let escrow_signer_seeds = escrow_authority_seeds(&ctx.auction_key, a.escrow_authority_bump);
    let escrow = ctx.auction_escrow_token_account;
    let auth = ctx.auction_escrow_authority;
    let mut movements: Vec<FundMovement> = Vec::new();
    if amount_to_seller > 0 {
        movements.push(
            FundMovement::Transfer { from: escrow, to: ctx.seller_token_account.key, authority: auth, amount: amount_to_seller },
        );
    }
    if commission > 0 {
        movements.push(
            FundMovement::Transfer { from: escrow, to: ctx.treasury_pern_token_account.key, authority: auth, amount: commission },
        );
    }
    movements.push(FundMovement::Close { account: escrow, destination: ctx.highest_bidder, authority: auth });
    assert(movements@ =~= settle_movements(*old(ctx), commission, amount_to_seller));
    let sold = match internal_transfer_ownership(&mut ctx.asset_account, ctx.asset_key, ctx.highest_bidder) {
        Ok(s) => s,
        Err(e) => return Err(e),
    };
    ctx.auction_account.auction_status = AuctionProcessStatus::Completed;
    Ok(SettlementPlan { commission, amount_to_seller, movements, escrow_signer_seeds, sold })
}

} // verus!
