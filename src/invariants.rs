use vstd::prelude::*;
use crate::auction::{
    auction_after_bid, bid_error, bid_movements, escrow_expected, finalize_error, finalize_movements,
    finalized_asset, finalized_status, list_error, listed_auction, listing_movements, settle_error, settle_movements,
    settlement_split_spec, AuctionAccount, AuctionProcessStatus, FinalizeAuctionAccounts,
    ListAssetForAuctionAccounts, PlaceBidAccounts, SettleAuctionAccounts,
};
use crate::asset::AssetListedStatus;
use crate::errors::DubuuMarketplaceError;
use crate::ledger::{closes, flow_of, is_close_of, net_flow, FundMovement};

verus! {

/// A fresh escrow holds nothing and a new auction has no bidder, so the
/// escrow starts equal to what the auction expects of it; the listing fee
/// never passes through the escrow.
pub proof fn listing_opens_escrow_empty(
    ctx: ListAssetForAuctionAccounts,
    start_price: u64,
    duration_seconds: i64,
    now: i64,
)
    requires
        list_error(ctx, duration_seconds, now) is None,
        ctx.seller_pern_token_account.key@ != ctx.auction_escrow_token_account@,
        ctx.treasury_pern_token_account.key@ != ctx.auction_escrow_token_account@,
    ensures
        escrow_expected(listed_auction(ctx, start_price, duration_seconds, now)) == 0,
        net_flow(listing_movements(ctx), ctx.auction_escrow_token_account@) == 0,
{
    reveal_with_fuel(net_flow, 2);
    let ms = listing_movements(ctx);
    assert(ms.drop_last() =~= Seq::<FundMovement>::empty());
}

/// An accepted bid keeps the escrow equal to the highest bid: if the escrow
/// held what the auction expected before, it holds the new bid after the
/// bid's transfers, and it is never overdrawn in between. The bidders' token
/// accounts are not the escrow itself.
pub proof fn bid_keeps_escrow_at_highest_bid(ctx: PlaceBidAccounts, amount: u64, now: i64, balance: int)
    requires
        bid_error(ctx, amount, now) is None,
        balance == escrow_expected(ctx.auction_account),
        ctx.bidder_pern_token_account.key@ != ctx.auction_escrow_token_account@,
        ctx.previous_highest_bidder_token_account matches Some(t) ==> t.key@ != ctx.auction_escrow_token_account@,
    ensures
        balance + net_flow(bid_movements(ctx, amount), ctx.auction_escrow_token_account@) == escrow_expected(
            auction_after_bid(ctx.auction_account, ctx.bidder, amount),
        ),
        forall|k: int|
            0 <= k <= bid_movements(ctx, amount).len() ==> balance + net_flow(
                #[trigger] bid_movements(ctx, amount).take(k),
                ctx.auction_escrow_token_account@,
            ) >= 0,
{
    reveal_with_fuel(net_flow, 3);
    let ms = bid_movements(ctx, amount);
    let e = ctx.auction_escrow_token_account@;
    let a = ctx.auction_account;
    assert(ms.take(0) =~= Seq::<FundMovement>::empty());
    assert(ms.take(ms.len() as int) =~= ms);
    if ms.len() == 2 {
        let first = seq![ms[0]];
        assert(ms.drop_last() =~= first);
        assert(first.drop_last() =~= Seq::<FundMovement>::empty());
        assert(ms.take(1) =~= first);
        assert(flow_of(ms[0], e) == -(a.highest_bid_usd_star as int));
        assert(flow_of(ms[1], e) == amount as int);
        assert(net_flow(first, e) == flow_of(ms[0], e));
        assert(net_flow(ms, e) == net_flow(first, e) + flow_of(ms[1], e));
    } else {
        assert(ms.drop_last() =~= Seq::<FundMovement>::empty());
        assert(flow_of(ms[0], e) == amount as int);
        assert(net_flow(ms, e) == flow_of(ms[0], e));
    }
}

/// Finalizing an auction that has a winner moves nothing, so the escrow
/// still holds the winning bid for settlement.
pub proof fn finalize_leaves_winning_escrow(ctx: FinalizeAuctionAccounts, now: i64)
    requires
        finalize_error(ctx, now) is None,
        ctx.auction_account.highest_bidder is Some,
    ensures
        finalize_movements(ctx).len() == 0,
        finalized_status(ctx.auction_account) == AuctionProcessStatus::EndedSoldPayPending,
        escrow_expected(AuctionAccount { auction_status: finalized_status(ctx.auction_account), ..ctx.auction_account })
            == escrow_expected(ctx.auction_account),
{
}

/// A bid at or below the highest bid is refused; on an active auction with
/// the bidder's own token account in order, the refusal is `BidTooLow`.
pub proof fn low_bid_refused(ctx: PlaceBidAccounts, amount: u64, now: i64)
    requires
        amount <= ctx.auction_account.highest_bid_usd_star,
    ensures
        bid_error(ctx, amount, now) is Some,
        ctx.auction_account.auction_status == AuctionProcessStatus::Active
            && ctx.bidder_pern_token_account.mint@ == ctx.auction_account.pern_usd_star_mint@
            && ctx.bidder_pern_token_account.owner@ == ctx.bidder@ ==> bid_error(ctx, amount, now) == Some(
            DubuuMarketplaceError::BidTooLow,
        ),
{
}

/// On an active auction (with the seller named to receive the escrow's
/// rent and the auction's own asset supplied), finalizing before the end time fails with `AuctionNotEnded`; at or
/// after it succeeds, and once it has, finalizing again fails because the
/// auction is no longer active.
pub proof fn finalize_succeeds_once(ctx: FinalizeAuctionAccounts, now: i64, later: i64)
    requires
        ctx.auction_account.auction_status == AuctionProcessStatus::Active,
        ctx.seller_rent_recipient@ == ctx.auction_account.seller@,
        ctx.asset_key@ == ctx.auction_account.asset_key@,
    ensures
        now < ctx.auction_account.auction_end_timestamp ==> finalize_error(ctx, now) == Some(
            DubuuMarketplaceError::AuctionNotEnded,
        ),
        now >= ctx.auction_account.auction_end_timestamp ==> {
            &&& finalize_error(ctx, now) is None
            &&& finalize_error(
                FinalizeAuctionAccounts {
                    auction_account: AuctionAccount {
                        auction_status: finalized_status(ctx.auction_account),
                        ..ctx.auction_account
                    },
                    asset_account: finalized_asset(ctx),
                    ..ctx
                },
                later,
            ) == Some(DubuuMarketplaceError::AuctionNotInActiveState)
        },
{
}

/// Settlement starts only from `EndedSoldPayPending`; the commission and
/// the seller's share add up to the winning bid; the payouts take exactly
/// the winning bid out of the escrow, the seller's account gains exactly the
/// seller's share and the treasury exactly the commission, and the escrow is
/// closed. The escrow, the seller's and the treasury's token accounts are
/// three different accounts.
pub proof fn settlement_conserves_value(ctx: SettleAuctionAccounts)
    requires
        settle_error(ctx) is None,
        ctx.seller_token_account.key@ != ctx.auction_escrow_token_account@,
        ctx.treasury_pern_token_account.key@ != ctx.auction_escrow_token_account@,
        ctx.seller_token_account.key@ != ctx.treasury_pern_token_account.key@,
    ensures
        ctx.auction_account.auction_status == AuctionProcessStatus::EndedSoldPayPending,
        settlement_split_spec(ctx.auction_account.highest_bid_usd_star, ctx.marketplace_config.sale_commission_bps)
            matches Some((commission, amount_to_seller)) && {
            &&& commission + amount_to_seller == ctx.auction_account.highest_bid_usd_star
            &&& ctx.auction_account.highest_bid_usd_star + net_flow(
                settle_movements(ctx, commission, amount_to_seller),
                ctx.auction_escrow_token_account@,
            ) == 0
            &&& closes(settle_movements(ctx, commission, amount_to_seller), ctx.auction_escrow_token_account@)
            &&& net_flow(settle_movements(ctx, commission, amount_to_seller), ctx.seller_token_account.key@)
                == amount_to_seller
            &&& net_flow(settle_movements(ctx, commission, amount_to_seller), ctx.treasury_pern_token_account.key@)
                == commission
        },
{
    let (c, s) = settlement_split_spec(ctx.auction_account.highest_bid_usd_star, ctx.marketplace_config.sale_commission_bps)->Some_0;
    reveal_with_fuel(net_flow, 4);
    let e = ctx.auction_escrow_token_account@;
    let ms = settle_movements(ctx, c, s);
    let escrow = ctx.auction_escrow_token_account;
    let auth = ctx.auction_escrow_authority;
    let to_seller = if s > 0 {
        seq![FundMovement::Transfer { from: escrow, to: ctx.seller_token_account.key, authority: auth, amount: s }]
    } else {
        seq![]
    };
    let to_treasury = if c > 0 {
        seq![FundMovement::Transfer { from: escrow, to: ctx.treasury_pern_token_account.key, authority: auth, amount: c }]
    } else {
        seq![]
    };
    let pays = to_seller + to_treasury;
    assert(ms.drop_last() =~= pays);
    let sk = ctx.seller_token_account.key@;
    let tk = ctx.treasury_pern_token_account.key@;
    assert(net_flow(ms, e) == net_flow(pays, e));
    assert(net_flow(ms, sk) == net_flow(pays, sk));
    assert(net_flow(ms, tk) == net_flow(pays, tk));
    if s > 0 && c > 0 {
        assert(pays.drop_last() =~= to_seller);
        assert(to_seller.drop_last() =~= Seq::<FundMovement>::empty());
        assert(net_flow(to_seller, e) == -(s as int));
        assert(net_flow(to_seller, sk) == s as int);
        assert(net_flow(to_seller, tk) == 0);
        assert(net_flow(pays, e) == net_flow(to_seller, e) + flow_of(pays.last(), e));
        assert(net_flow(pays, sk) == net_flow(to_seller, sk) + flow_of(pays.last(), sk));
        assert(net_flow(pays, tk) == net_flow(to_seller, tk) + flow_of(pays.last(), tk));
    } else if s > 0 {
        assert(pays =~= to_seller);
        assert(to_seller.drop_last() =~= Seq::<FundMovement>::empty());
        assert(net_flow(to_seller, e) == -(s as int));
        assert(net_flow(to_seller, sk) == s as int);
        assert(net_flow(to_seller, tk) == 0);
    } else if c > 0 {
        assert(pays =~= to_treasury);
        assert(to_treasury.drop_last() =~= Seq::<FundMovement>::empty());
        assert(net_flow(to_treasury, e) == -(c as int));
        assert(net_flow(to_treasury, sk) == 0);
        assert(net_flow(to_treasury, tk) == c as int);
    } else {
        assert(pays =~= Seq::<FundMovement>::empty());
    }
    assert(is_close_of(ms[ms.len() - 1], e));
}

/// An auction finalized without a bidder ends unsold, and its escrow is
/// closed to the seller: the one thing finalizing asks of the token service,
/// with no transfer to the treasury or to anyone else. An asset that was in
/// the auction is ready for auction again and references no auction.
pub proof fn unsold_escrow_returns_to_seller(ctx: FinalizeAuctionAccounts, now: i64)
    requires
        finalize_error(ctx, now) is None,
        ctx.auction_account.highest_bidder is None,
    ensures
        finalized_status(ctx.auction_account) == AuctionProcessStatus::EndedUnsold,
        finalize_movements(ctx).len() == 1,
        finalize_movements(ctx)[0] matches FundMovement::Close { account, destination, .. } && account
            == ctx.auction_escrow_token_account && destination@ == ctx.auction_account.seller@,
        ctx.asset_account.asset_listed_status == AssetListedStatus::InAuction ==> {
            &&& finalized_asset(ctx).asset_listed_status == AssetListedStatus::ReadyForAuction
            &&& finalized_asset(ctx).active_auction_key is None
        },
{
}

} // verus!
