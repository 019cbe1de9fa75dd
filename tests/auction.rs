use dubuu_marketplace::{
    escrow_authority_seeds, handle_admin_update_ownership_verification, handle_finalize_auction,
    handle_list_asset_for_auction, handle_place_bid, handle_register_asset_and_submit_docs_ref,
    handle_settle_auction_and_transfer, settlement_split, AccountKey, AdminVerifyOwnershipAccounts, AssetAccount,
    AssetListedStatus, AuctionAccount, AuctionEndNotice, AuctionProcessStatus, DubuuMarketplaceError,
    FinalizeAuctionAccounts, FundMovement, ListAssetForAuctionAccounts, MarketplaceConfig, OwnershipStatus,
    PlaceBidAccounts, RegisterAssetAccounts, SettleAuctionAccounts, TokenAccount,
};

const SELLER: u8 = 1;
const ALICE: u8 = 2;
const BOB: u8 = 3;
const ASSET: u8 = 7;
const ADMIN: u8 = 9;
const AUCTION: u8 = 20;
const ESCROW: u8 = 21;
const ESCROW_AUTH: u8 = 22;
const MINT: u8 = 50;
const TREASURY: u8 = 60;
const NOW: i64 = 1_000_000;

fn key(n: u8) -> AccountKey {
    AccountKey::new([n; 32])
}

fn wallet(owner: u8) -> TokenAccount {
    TokenAccount { key: key(owner + 100), mint: key(MINT), owner: key(owner), amount: 1_000_000 }
}

fn config() -> MarketplaceConfig {
    MarketplaceConfig {
        admin: key(ADMIN),
        pern_usd_star_mint: key(MINT),
        treasury_pern_account: key(TREASURY),
        listing_fee_usd_star: 5,
        sale_commission_bps: 250,
        is_paused: false,
        bump: 1,
    }
}

fn treasury() -> TokenAccount {
    TokenAccount { key: key(TREASURY), mint: key(MINT), owner: key(ADMIN), amount: 0 }
}

fn verified_asset() -> AssetAccount {
    let reg = RegisterAssetAccounts { signer: key(SELLER), asset_account_bump: 250 };
    let asset = handle_register_asset_and_submit_docs_ref(&reg, "asset-42", "cidABC".to_string()).unwrap();
    assert_eq!(asset.ownership_verification_status, OwnershipStatus::PendingReview);
    let mut v = AdminVerifyOwnershipAccounts {
        asset_key: key(ASSET),
        asset_account: asset,
        marketplace_config: config(),
        admin: key(ADMIN),
    };
    handle_admin_update_ownership_verification(&mut v, OwnershipStatus::Verified, None).unwrap();
    assert_eq!(v.asset_account.asset_listed_status, AssetListedStatus::ReadyForAuction);
    v.asset_account
}

fn listing_ctx() -> ListAssetForAuctionAccounts {
    ListAssetForAuctionAccounts {
        auction_key: key(AUCTION),
        asset_key: key(ASSET),
        asset_account: verified_asset(),
        seller: key(SELLER),
        marketplace_config: config(),
        seller_pern_token_account: wallet(SELLER),
        treasury_pern_token_account: treasury(),
        auction_escrow_token_account: key(ESCROW),
        pern_usd_star_mint_account: key(MINT),
        auction_escrow_authority: key(ESCROW_AUTH),
        auction_account_bump: 255,
        auction_escrow_authority_bump: 253,
    }
}

fn listed(start: u64, duration: i64) -> (AuctionAccount, AssetAccount) {
    let mut ctx = listing_ctx();
    let plan = handle_list_asset_for_auction(&mut ctx, start, duration, NOW).unwrap();
    (plan.auction_account, ctx.asset_account)
}

fn bid_ctx(a: AuctionAccount, bidder: u8, previous: Option<u8>) -> PlaceBidAccounts {
    PlaceBidAccounts {
        auction_key: key(AUCTION),
        auction_account: a,
        bidder: key(bidder),
        bidder_pern_token_account: wallet(bidder),
        auction_escrow_token_account: key(ESCROW),
        auction_escrow_authority: key(ESCROW_AUTH),
        previous_highest_bidder_token_account: previous.map(wallet),
    }
}

fn finalize_ctx(a: AuctionAccount, asset: AssetAccount) -> FinalizeAuctionAccounts {
    FinalizeAuctionAccounts {
        auction_key: key(AUCTION),
        auction_account: a,
        asset_key: key(ASSET),
        asset_account: asset,
        signer: key(ALICE),
        auction_escrow_token_account: key(ESCROW),
        auction_escrow_authority: key(ESCROW_AUTH),
        highest_bidder_token_account_for_refund: None,
        seller_rent_recipient: key(SELLER),
    }
}

fn settle_ctx(a: AuctionAccount, asset: AssetAccount, winner: u8) -> SettleAuctionAccounts {
    SettleAuctionAccounts {
        auction_key: key(AUCTION),
        auction_account: a,
        highest_bidder: key(winner),
        asset_key: key(ASSET),
        asset_account: asset,
        marketplace_config: config(),
        auction_escrow_token_account: key(ESCROW),
        auction_escrow_authority: key(ESCROW_AUTH),
        seller_token_account: wallet(SELLER),
        treasury_pern_token_account: treasury(),
    }
}

fn escrow_flow(ms: &[FundMovement]) -> i128 {
    let mut total: i128 = 0;
    for m in ms {
        if let FundMovement::Transfer { from, to, amount, .. } = m {
            if *to == key(ESCROW) {
                total += *amount as i128;
            }
            if *from == key(ESCROW) {
                total -= *amount as i128;
            }
        }
    }
    total
}

#[test]
fn full_round_trip_register_verify_list_bid() {
    let (a, asset) = listed(1000, 3600);
    assert_eq!(a.auction_status, AuctionProcessStatus::Active);
    assert_eq!(a.highest_bid_usd_star, 1000);
    assert_eq!(a.highest_bidder, None);
    assert_eq!(a.auction_end_timestamp, NOW + 3600);
    assert_eq!(asset.asset_listed_status, AssetListedStatus::InAuction);
    assert_eq!(asset.active_auction_key, Some(key(AUCTION)));

    let mut ctx = bid_ctx(a, ALICE, None);
    handle_place_bid(&mut ctx, 1500, NOW + 10).unwrap();
    assert_eq!(ctx.auction_account.highest_bid_usd_star, 1500);
    assert_eq!(ctx.auction_account.highest_bidder, Some(key(ALICE)));

    let after_first = ctx.auction_account;
    let mut ctx2 = bid_ctx(after_first, BOB, Some(ALICE));
    let before = ctx2;
    assert_eq!(handle_place_bid(&mut ctx2, 1400, NOW + 20).unwrap_err(), DubuuMarketplaceError::BidTooLow);
    assert_eq!(ctx2, before);
    assert_eq!(ctx2.auction_account, after_first);
}

#[test]
fn listing_charges_fee_to_treasury() {
    let mut ctx = listing_ctx();
    let plan = handle_list_asset_for_auction(&mut ctx, 1000, 3600, NOW).unwrap();
    assert_eq!(
        plan.movements,
        vec![FundMovement::Transfer {
            from: key(SELLER + 100),
            to: key(TREASURY),
            authority: key(SELLER),
            amount: 5
        }]
    );
    assert_eq!(plan.auction_account.seller, key(SELLER));
    assert_eq!(plan.auction_account.escrow_authority_bump, 253);
    assert_eq!(plan.auction_account.bump, 255);
}

#[test]
fn listing_errors() {
    let mut ctx = listing_ctx();
    ctx.seller = key(ALICE);
    assert_eq!(handle_list_asset_for_auction(&mut ctx, 1, 1, NOW).unwrap_err(), DubuuMarketplaceError::Unauthorized);

    let mut ctx = listing_ctx();
    ctx.marketplace_config.is_paused = true;
    let before = ctx.clone();
    assert_eq!(
        handle_list_asset_for_auction(&mut ctx, 1, 1, NOW).unwrap_err(),
        DubuuMarketplaceError::MarketplacePaused
    );
    assert_eq!(ctx, before);

    let mut ctx = listing_ctx();
    ctx.asset_account.ownership_verification_status = OwnershipStatus::Rejected;
    assert_eq!(
        handle_list_asset_for_auction(&mut ctx, 1, 1, NOW).unwrap_err(),
        DubuuMarketplaceError::OwnershipVerificationRequired
    );

    let mut ctx = listing_ctx();
    ctx.asset_account.asset_listed_status = AssetListedStatus::InAuction;
    assert_eq!(
        handle_list_asset_for_auction(&mut ctx, 1, 1, NOW).unwrap_err(),
        DubuuMarketplaceError::AssetNotReadyForAuction
    );

    let mut ctx = listing_ctx();
    ctx.seller_pern_token_account.mint = key(51);
    assert_eq!(
        handle_list_asset_for_auction(&mut ctx, 1, 1, NOW).unwrap_err(),
        DubuuMarketplaceError::InvalidPerenaMint
    );

    let mut ctx = listing_ctx();
    ctx.seller_pern_token_account.owner = key(ALICE);
    assert_eq!(
        handle_list_asset_for_auction(&mut ctx, 1, 1, NOW).unwrap_err(),
        DubuuMarketplaceError::InvalidTokenAccountOwner
    );

    let mut ctx = listing_ctx();
    ctx.treasury_pern_token_account.key = key(61);
    assert_eq!(
        handle_list_asset_for_auction(&mut ctx, 1, 1, NOW).unwrap_err(),
        DubuuMarketplaceError::InvalidTreasuryAccount
    );

    let mut ctx = listing_ctx();
    assert_eq!(
        handle_list_asset_for_auction(&mut ctx, 1, i64::MAX, NOW).unwrap_err(),
        DubuuMarketplaceError::TimestampOverflow
    );
    assert_eq!(ctx.asset_account.asset_listed_status, AssetListedStatus::ReadyForAuction);
}

#[test]
fn outbid_refunds_previous_bidder_before_pulling_new_bid() {
    let (a, _) = listed(1000, 3600);
    let mut c1 = bid_ctx(a, ALICE, None);
    let p1 = handle_place_bid(&mut c1, 1500, NOW + 1).unwrap();
    assert_eq!(escrow_flow(&p1.movements), 1500);
    let mut c2 = bid_ctx(c1.auction_account, BOB, Some(ALICE));
    let p2 = handle_place_bid(&mut c2, 2000, NOW + 2).unwrap();
    assert_eq!(
        p2.movements,
        vec![
            FundMovement::Transfer {
                from: key(ESCROW),
                to: key(ALICE + 100),
                authority: key(ESCROW_AUTH),
                amount: 1500
            },
            FundMovement::Transfer { from: key(BOB + 100), to: key(ESCROW), authority: key(BOB), amount: 2000 },
        ]
    );
    // The escrow held 1500 and now holds exactly the new highest bid.
    assert_eq!(1500 + escrow_flow(&p2.movements), 2000);
    assert_eq!(c2.auction_account.highest_bid_usd_star, 2000);
    assert_eq!(p2.event.amount, 2000);
    assert_eq!(p2.event.bidder, key(BOB));
    assert_eq!(p2.escrow_signer_seeds, escrow_authority_seeds(&key(AUCTION), 253));
}

#[test]
fn escrow_seeds_layout() {
    let s = escrow_authority_seeds(&key(AUCTION), 253);
    assert_eq!(s, vec![b"escrow_authority".to_vec(), vec![AUCTION; 32], vec![253]]);
}

#[test]
fn equal_bid_is_rejected() {
    let (a, _) = listed(1000, 3600);
    let mut c = bid_ctx(a, ALICE, None);
    assert_eq!(handle_place_bid(&mut c, 1000, NOW).unwrap_err(), DubuuMarketplaceError::BidTooLow);
    assert_eq!(c.auction_account, a);
}

#[test]
fn bid_errors() {
    let (a, _) = listed(1000, 3600);
    let mut c = bid_ctx(a, ALICE, None);
    assert_eq!(handle_place_bid(&mut c, 1001, NOW + 3600).unwrap_err(), DubuuMarketplaceError::AuctionEnded);

    let mut c = bid_ctx(a, ALICE, None);
    c.bidder_pern_token_account.mint = key(51);
    assert_eq!(handle_place_bid(&mut c, 1001, NOW).unwrap_err(), DubuuMarketplaceError::InvalidPerenaMint);

    let mut c = bid_ctx(a, ALICE, None);
    c.bidder_pern_token_account.owner = key(BOB);
    assert_eq!(handle_place_bid(&mut c, 1001, NOW).unwrap_err(), DubuuMarketplaceError::InvalidTokenAccountOwner);

    let mut ended = a;
    ended.auction_status = AuctionProcessStatus::EndedUnsold;
    let mut c = bid_ctx(ended, ALICE, None);
    assert_eq!(handle_place_bid(&mut c, 1001, NOW).unwrap_err(), DubuuMarketplaceError::AuctionNotInActiveState);

    let mut with_bidder = a;
    with_bidder.highest_bidder = Some(key(ALICE));
    let mut c = bid_ctx(with_bidder, BOB, None);
    assert_eq!(
        handle_place_bid(&mut c, 1001, NOW).unwrap_err(),
        DubuuMarketplaceError::MissingPreviousBidderAccount
    );
    let mut c = bid_ctx(with_bidder, BOB, Some(BOB));
    assert_eq!(handle_place_bid(&mut c, 1001, NOW).unwrap_err(), DubuuMarketplaceError::InvalidTokenAccountOwner);
    let mut c = bid_ctx(with_bidder, BOB, Some(ALICE));
    c.previous_highest_bidder_token_account.as_mut().unwrap().mint = key(51);
    assert_eq!(handle_place_bid(&mut c, 1001, NOW).unwrap_err(), DubuuMarketplaceError::InvalidPerenaMint);
    assert_eq!(c.auction_account, with_bidder);
}

#[test]
fn finalize_before_end_fails_then_succeeds_once() {
    let (a, asset) = listed(1000, 3600);
    let mut c = finalize_ctx(a, asset);
    assert_eq!(handle_finalize_auction(&mut c, NOW + 3599).unwrap_err(), DubuuMarketplaceError::AuctionNotEnded);
    assert_eq!(c.auction_account, a);
    assert!(handle_finalize_auction(&mut c, NOW + 3600).is_ok());
    assert_eq!(
        handle_finalize_auction(&mut c, NOW + 3601).unwrap_err(),
        DubuuMarketplaceError::AuctionNotInActiveState
    );
}

#[test]
fn unsold_auction_closes_escrow_to_seller() {
    let (a, asset) = listed(1000, 3600);
    let mut c = finalize_ctx(a, asset);
    let plan = handle_finalize_auction(&mut c, NOW + 4000).unwrap();
    assert_eq!(c.auction_account.auction_status, AuctionProcessStatus::EndedUnsold);
    assert_eq!(
        plan.movements,
        vec![FundMovement::Close { account: key(ESCROW), destination: key(SELLER), authority: key(ESCROW_AUTH) }]
    );
    assert_eq!(plan.notice, AuctionEndNotice::NoSale(dubuu_marketplace::AuctionEndedNoSale { auction_key: key(AUCTION) }));
}

#[test]
fn unsold_asset_can_be_relisted() {
    let (a, asset) = listed(1000, 3600);
    assert_eq!(asset.asset_listed_status, AssetListedStatus::InAuction);
    let mut c = finalize_ctx(a, asset);
    handle_finalize_auction(&mut c, NOW + 4000).unwrap();
    assert_eq!(c.asset_account.asset_listed_status, AssetListedStatus::ReadyForAuction);
    assert_eq!(c.asset_account.active_auction_key, None);
    assert_eq!(c.asset_account.ownership_verification_status, OwnershipStatus::Verified);

    let mut again = listing_ctx();
    again.auction_key = key(AUCTION + 10);
    again.asset_account = c.asset_account.clone();
    let plan = handle_list_asset_for_auction(&mut again, 800, 60, NOW + 5000).unwrap();
    assert_eq!(plan.auction_account.highest_bid_usd_star, 800);
    assert_eq!(again.asset_account.active_auction_key, Some(key(AUCTION + 10)));
}

#[test]
fn finalize_rejects_foreign_asset() {
    let (a, asset) = listed(1000, 3600);
    let mut c = finalize_ctx(a, asset);
    c.asset_key = key(8);
    let before = c.clone();
    assert_eq!(handle_finalize_auction(&mut c, NOW + 4000).unwrap_err(), DubuuMarketplaceError::InvalidAssetAccount);
    assert_eq!(c, before);
}

#[test]
fn finalize_rejects_wrong_rent_recipient() {
    let (a, asset) = listed(1000, 3600);
    let mut c = finalize_ctx(a, asset);
    c.seller_rent_recipient = key(TREASURY);
    assert_eq!(
        handle_finalize_auction(&mut c, NOW + 4000).unwrap_err(),
        DubuuMarketplaceError::InvalidSellerAccountForRent
    );
}

#[test]
fn settlement_split_example() {
    assert_eq!(settlement_split(10000, 250), Ok((250, 9750)));
    assert_eq!(settlement_split(999, 250), Ok((24, 975)));
    assert_eq!(settlement_split(u64::MAX, 2), Err(DubuuMarketplaceError::CalculationOverflow));
    assert_eq!(settlement_split(100, 20000), Err(DubuuMarketplaceError::CalculationOverflow));
    assert_eq!(settlement_split(100, 10000), Ok((100, 0)));
}

fn sold_auction(bid: u64) -> (AuctionAccount, AssetAccount) {
    let (a, asset) = listed(1000, 3600);
    let mut b = bid_ctx(a, ALICE, None);
    handle_place_bid(&mut b, bid, NOW + 1).unwrap();
    let mut f = finalize_ctx(b.auction_account, asset.clone());
    let plan = handle_finalize_auction(&mut f, NOW + 3600).unwrap();
    assert!(plan.movements.is_empty());
    assert_eq!(f.auction_account.auction_status, AuctionProcessStatus::EndedSoldPayPending);
    assert_eq!(f.asset_account, asset);
    (f.auction_account, f.asset_account)
}

#[test]
fn settle_pays_seller_and_treasury_and_transfers_asset() {
    let (a, asset) = sold_auction(10000);
    let mut s = settle_ctx(a, asset, ALICE);
    let plan = handle_settle_auction_and_transfer(&mut s).unwrap();
    assert_eq!(plan.commission, 250);
    assert_eq!(plan.amount_to_seller, 9750);
    assert_eq!(plan.commission + plan.amount_to_seller, 10000);
    assert_eq!(
        plan.movements,
        vec![
            FundMovement::Transfer {
                from: key(ESCROW),
                to: key(SELLER + 100),
                authority: key(ESCROW_AUTH),
                amount: 9750
            },
            FundMovement::Transfer { from: key(ESCROW), to: key(TREASURY), authority: key(ESCROW_AUTH), amount: 250 },
            FundMovement::Close { account: key(ESCROW), destination: key(ALICE), authority: key(ESCROW_AUTH) },
        ]
    );
    assert_eq!(10000 + escrow_flow(&plan.movements), 0);
    assert_eq!(s.auction_account.auction_status, AuctionProcessStatus::Completed);
    assert_eq!(s.asset_account.current_owner, key(ALICE));
    assert_eq!(s.asset_account.asset_listed_status, AssetListedStatus::Sold);
    assert_eq!(s.asset_account.active_auction_key, None);
    assert_eq!(plan.sold.new_owner, key(ALICE));
    // Settling again is refused.
    assert_eq!(
        handle_settle_auction_and_transfer(&mut s).unwrap_err(),
        DubuuMarketplaceError::AuctionNotInSettlementState
    );
}

#[test]
fn settle_skips_zero_commission() {
    let (a, asset) = sold_auction(1001);
    let mut s = settle_ctx(a, asset, ALICE);
    s.marketplace_config.sale_commission_bps = 0;
    let plan = handle_settle_auction_and_transfer(&mut s).unwrap();
    assert_eq!(plan.commission, 0);
    assert_eq!(plan.movements.len(), 2);
}

#[test]
fn settle_errors() {
    let (a, asset) = sold_auction(10000);
    let mut s = settle_ctx(a, asset.clone(), BOB);
    assert_eq!(handle_settle_auction_and_transfer(&mut s).unwrap_err(), DubuuMarketplaceError::NotAuctionWinner);

    let mut s = settle_ctx(a, asset.clone(), ALICE);
    s.asset_key = key(8);
    assert_eq!(handle_settle_auction_and_transfer(&mut s).unwrap_err(), DubuuMarketplaceError::InvalidAssetAccount);

    let mut s = settle_ctx(a, asset.clone(), ALICE);
    s.seller_token_account.owner = key(BOB);
    assert_eq!(
        handle_settle_auction_and_transfer(&mut s).unwrap_err(),
        DubuuMarketplaceError::InvalidTokenAccountOwner
    );

    let mut s = settle_ctx(a, asset.clone(), ALICE);
    s.treasury_pern_token_account.key = key(61);
    assert_eq!(
        handle_settle_auction_and_transfer(&mut s).unwrap_err(),
        DubuuMarketplaceError::InvalidTreasuryAccount
    );

    let mut s = settle_ctx(a, asset.clone(), ALICE);
    s.treasury_pern_token_account.mint = key(51);
    assert_eq!(handle_settle_auction_and_transfer(&mut s).unwrap_err(), DubuuMarketplaceError::InvalidPerenaMint);

    let mut s = settle_ctx(a, asset.clone(), ALICE);
    s.marketplace_config.sale_commission_bps = 20000;
    let before = s.clone();
    assert_eq!(
        handle_settle_auction_and_transfer(&mut s).unwrap_err(),
        DubuuMarketplaceError::CalculationOverflow
    );
    assert_eq!(s, before);

    let (active, asset2) = listed(1000, 3600);
    let mut s = settle_ctx(active, asset2, ALICE);
    assert_eq!(
        handle_settle_auction_and_transfer(&mut s).unwrap_err(),
        DubuuMarketplaceError::AuctionNotInSettlementState
    );
}
