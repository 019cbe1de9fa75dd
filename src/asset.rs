use vstd::prelude::*;
use vstd::utf8::encode_utf8;
use vstd::string::StringSliceAdditionalSpecFns;
use crate::config::MarketplaceConfig;
use crate::errors::DubuuMarketplaceError;
use crate::hashing::{hash_bytes, sha256_of};
use crate::keys::{seeds_view, AccountKey};

verus! {

/// The longest metadata content identifier an asset record may hold, in bytes.
pub const MAX_METADATA_CID_LENGTH: usize = 100;

/// The outcome of the administrative ownership review.
#[derive(Clone, Copy, Debug, PartialEq, Eq, Structural)]
pub enum OwnershipStatus {
    PendingReview,
    Verified,
    Rejected,
}

/// Where an asset stands on its way to a sale.
#[derive(Clone, Copy, Debug, PartialEq, Eq, Structural)]
pub enum AssetListedStatus {
    AwaitingOwnershipVerification,
    ReadyForAuction,
    InAuction,
    Sold,
}

/// One registered asset.
#[derive(Clone, Debug, PartialEq, Eq)]
pub struct AssetAccount {
    pub creator: AccountKey,
    pub current_owner: AccountKey,
    pub asset_id_hash: [u8; 32],
    pub walrus_main_metadata_cid: String,
    pub ownership_verification_status: OwnershipStatus,
    pub asset_listed_status: AssetListedStatus,
    pub active_auction_key: Option<AccountKey>,
    pub bump: u8,
}

/// The length in bytes of the UTF-8 encoding of a string.
pub open spec fn utf8_len(s: Seq<char>) -> nat {
    encode_utf8(s).len()
}

impl AssetAccount {
    /// The record's invariant: the metadata identifier fits its bound, and
    /// an auction is referenced exactly while the asset is in auction.
    pub open spec fn wf(&self) -> bool {
        &&& utf8_len(self.walrus_main_metadata_cid@) <= MAX_METADATA_CID_LENGTH
        &&& (self.active_auction_key is Some <==> self.asset_listed_status == AssetListedStatus::InAuction)
    }
}

/// Notification that the administrator reviewed an asset's ownership.
#[derive(Clone, Copy, Debug, PartialEq, Eq)]
pub struct OwnershipVerificationUpdatedEvent {
    pub asset_key: AccountKey,
    pub status: OwnershipStatus,
    pub notes_hash: Option<[u8; 32]>,
}

/// Notification that an asset changed hands through a settled auction.
#[derive(Clone, Debug, PartialEq, Eq)]
pub struct AssetSold {
    pub asset_key: AccountKey,
    pub new_owner: AccountKey,
    pub walrus_main_metadata_cid: String,
}

/// What registering an asset reads: the signer, who becomes creator and
/// owner, and the bump of the record's derived address.
#[derive(Clone, Copy, Debug, PartialEq, Eq)]
pub struct RegisterAssetAccounts {
    pub signer: AccountKey,
    pub asset_account_bump: u8,
}

/// What an ownership review reads and writes.
#[derive(Clone, Debug, PartialEq, Eq)]
pub struct AdminVerifyOwnershipAccounts {
    pub asset_key: AccountKey,
    pub asset_account: AssetAccount,
    pub marketplace_config: MarketplaceConfig,
    pub admin: AccountKey,
}

/// What a metadata update reads and writes.
#[derive(Clone, Debug, PartialEq, Eq)]
pub struct UpdateAssetMetadataAccounts {
    pub asset_account: AssetAccount,
    pub current_owner: AccountKey,
}

/// The seeds of an asset record's derived address: the tag `asset` and the
/// whole 32-byte digest of the caller's identifier.
pub open spec fn asset_seeds_spec(asset_id_seed: Seq<u8>) -> Seq<Seq<u8>> {
    seq![seq![97u8, 115u8, 115u8, 101u8, 116u8], sha256_of(asset_id_seed)]
}

/// Builds the seeds from which an asset record's address is derived, so that
/// writer and verifier locate the same record.
pub fn asset_address_seeds(asset_id_seed_str: &str) -> (r: Vec<Vec<u8>>)
    ensures
        seeds_view(r@) == asset_seeds_spec(asset_id_seed_str.spec_bytes()),
{
    let digest = hash_bytes(asset_id_seed_str.as_bytes());
    let tag: Vec<u8> = vec![97u8, 115u8, 115u8, 101u8, 116u8];
    assert(tag@ =~= asset_seeds_spec(asset_id_seed_str.spec_bytes())[0]);
    let digest_bytes = AccountKey { bytes: digest }.to_vec();
    let mut r: Vec<Vec<u8>> = Vec::new();
    r.push(tag);
    r.push(digest_bytes);
    assert(seeds_view(r@) =~= asset_seeds_spec(asset_id_seed_str.spec_bytes()));
    r
}

/// Whether a metadata identifier is within its length bound, in bytes.
pub fn cid_fits(cid: &String) -> (r: bool)
    ensures
        r == (utf8_len(cid@) <= MAX_METADATA_CID_LENGTH),
{
    cid.as_str().as_bytes().len() <= MAX_METADATA_CID_LENGTH
}

/// Registers a new asset: the signer becomes creator and owner, the record
/// waits for the ownership review, and no auction is referenced. Fails with
/// `StringTooLong` when the metadata identifier is over its bound.
pub fn handle_register_asset_and_submit_docs_ref(
    ctx: &RegisterAssetAccounts,
    asset_id_seed_str: &str,
    walrus_main_metadata_cid: String,
) -> (r: Result<AssetAccount, DubuuMarketplaceError>)
    ensures
        r is Err <==> utf8_len(walrus_main_metadata_cid@) > MAX_METADATA_CID_LENGTH,
        r is Err ==> r == Err::<AssetAccount, _>(DubuuMarketplaceError::StringTooLong),
        r matches Ok(a) ==> {
            &&& a.creator == ctx.signer
            &&& a.current_owner == ctx.signer
            &&& a.asset_id_hash@ == sha256_of(asset_id_seed_str.spec_bytes())
            &&& a.walrus_main_metadata_cid@ == walrus_main_metadata_cid@
            &&& a.ownership_verification_status == OwnershipStatus::PendingReview
            &&& a.asset_listed_status == AssetListedStatus::AwaitingOwnershipVerification
            &&& a.active_auction_key is None
            &&& a.bump == ctx.asset_account_bump
            &&& a.wf()
        },
{
    if !cid_fits(&walrus_main_metadata_cid) {
        return Err(DubuuMarketplaceError::StringTooLong);
    }
    let asset_id_hash = hash_bytes(asset_id_seed_str.as_bytes());
    Ok(AssetAccount {
        creator: ctx.signer,
        current_owner: ctx.signer,
        asset_id_hash,
        walrus_main_metadata_cid,
        ownership_verification_status: OwnershipStatus::PendingReview,
        asset_listed_status: AssetListedStatus::AwaitingOwnershipVerification,
        active_auction_key: None,
        bump: ctx.asset_account_bump,
    })
}

/// The ownership review. Only the configured administrator may make it
/// (`Unauthorized` otherwise). The new status is recorded. `Verified`
/// advances an asset that awaits verification to `ReadyForAuction`; any other
/// listing status is kept, so an asset in auction stays in its one live
/// auction and a sold asset stays sold. On `Rejected` or `PendingReview` the
/// listing status is kept as it was: the asset cannot enter an auction until
/// a later review verifies it.
pub fn handle_admin_update_ownership_verification(
    ctx: &mut AdminVerifyOwnershipAccounts,
    new_verification_status: OwnershipStatus,
    verification_notes_hash: Option<[u8; 32]>,
) -> (r: Result<OwnershipVerificationUpdatedEvent, DubuuMarketplaceError>)
    ensures
        r is Err <==> old(ctx).admin@ != old(ctx).marketplace_config.admin@,
        r is Err ==> r == Err::<OwnershipVerificationUpdatedEvent, _>(DubuuMarketplaceError::Unauthorized)
            && *final(ctx) == *old(ctx),
        r is Ok ==> {
            let (o, n) = (old(ctx).asset_account, final(ctx).asset_account);
            &&& final(ctx).asset_key == old(ctx).asset_key
            &&& final(ctx).marketplace_config == old(ctx).marketplace_config
            &&& final(ctx).admin == old(ctx).admin
            &&& n.ownership_verification_status == new_verification_status
            &&& n.asset_listed_status == (if new_verification_status == OwnershipStatus::Verified
                && o.asset_listed_status == AssetListedStatus::AwaitingOwnershipVerification {
                AssetListedStatus::ReadyForAuction
            } else {
                o.asset_listed_status
            })
            &&& n.creator == o.creator
            &&& n.current_owner == o.current_owner
            &&& n.asset_id_hash == o.asset_id_hash
            &&& n.walrus_main_metadata_cid == o.walrus_main_metadata_cid
            &&& n.active_auction_key == o.active_auction_key
            &&& n.bump == o.bump
            &&& r == Ok::<_, DubuuMarketplaceError>(OwnershipVerificationUpdatedEvent {
                asset_key: old(ctx).asset_key,
                status: new_verification_status,
                notes_hash: verification_notes_hash,
            })
        },
        old(ctx).asset_account.wf() ==> final(ctx).asset_account.wf(),
{
    if !ctx.admin.same_as(&ctx.marketplace_config.admin) {
        return Err(DubuuMarketplaceError::Unauthorized);
    }
    ctx.asset_account.ownership_verification_status = new_verification_status;
    if new_verification_status == OwnershipStatus::Verified
        && ctx.asset_account.asset_listed_status == AssetListedStatus::AwaitingOwnershipVerification {
        ctx.asset_account.asset_listed_status = AssetListedStatus::ReadyForAuction;
    }
    Ok(OwnershipVerificationUpdatedEvent {
        asset_key: ctx.asset_key,
        status: new_verification_status,
        notes_hash: verification_notes_hash,
    })
}

/// Replaces an asset's metadata identifier. Checked in this order: the
/// signer must be the current owner (`Unauthorized`), the identifier must fit
/// its bound (`StringTooLong`), and the asset must be neither in auction nor
/// sold (`AssetStatusPreventsUpdate`).
pub fn handle_update_asset_walrus_cid(
    ctx: &mut UpdateAssetMetadataAccounts,
    new_walrus_main_metadata_cid: String,
) -> (r: Result<(), DubuuMarketplaceError>)
    ensures
        ({
            let st = old(ctx).asset_account.asset_listed_status;
            let e = if old(ctx).asset_account.current_owner@ != old(ctx).current_owner@ {
                Some(DubuuMarketplaceError::Unauthorized)
            } else if utf8_len(new_walrus_main_metadata_cid@) > MAX_METADATA_CID_LENGTH {
                Some(DubuuMarketplaceError::StringTooLong)
            } else if st == AssetListedStatus::InAuction || st == AssetListedStatus::Sold {
                Some(DubuuMarketplaceError::AssetStatusPreventsUpdate)
            } else {
                None
            };
            match e {
                Some(err) => r == Err::<(), _>(err) && *final(ctx) == *old(ctx),
                None => r is Ok && final(ctx).current_owner == old(ctx).current_owner
                    && final(ctx).asset_account == (AssetAccount {
                        walrus_main_metadata_cid: new_walrus_main_metadata_cid,
                        ..old(ctx).asset_account
                    }),
            }
        }),
        old(ctx).asset_account.wf() ==> final(ctx).asset_account.wf(),
{
    if !ctx.asset_account.current_owner.same_as(&ctx.current_owner) {
        return Err(DubuuMarketplaceError::Unauthorized);
    }
    if !cid_fits(&new_walrus_main_metadata_cid) {
        return Err(DubuuMarketplaceError::StringTooLong);
    }
    let st = ctx.asset_account.asset_listed_status;
    if st == AssetListedStatus::InAuction || st == AssetListedStatus::Sold {
        return Err(DubuuMarketplaceError::AssetStatusPreventsUpdate);
    }
    ctx.asset_account.walrus_main_metadata_cid = new_walrus_main_metadata_cid;
    Ok(())
}

/// Hands a sold asset to its buyer: the owner changes, the asset is `Sold`
/// and no longer references an auction. Called only by settlement, which has
/// already checked the buyer.
pub fn internal_transfer_ownership(
    asset_account: &mut AssetAccount,
    asset_key: AccountKey,
    new_owner: AccountKey,
) -> (r: Result<AssetSold, DubuuMarketplaceError>)
    ensures
        *final(asset_account) == (AssetAccount {
            current_owner: new_owner,
            asset_listed_status: AssetListedStatus::Sold,
            active_auction_key: None,
            ..*old(asset_account)
        }),
        r == Ok::<_, DubuuMarketplaceError>(AssetSold {
            asset_key,
            new_owner,
            walrus_main_metadata_cid: old(asset_account).walrus_main_metadata_cid,
        }),
        old(asset_account).wf() ==> final(asset_account).wf(),
{
    asset_account.current_owner = new_owner;
    asset_account.asset_listed_status = AssetListedStatus::Sold;
    asset_account.active_auction_key = None;
    Ok(AssetSold {
        asset_key,
        new_owner,
        walrus_main_metadata_cid: asset_account.walrus_main_metadata_cid.clone(),
    })
}

/// Puts a verified, ready asset into auction and records the auction.
/// Fails with `AssetNotReadyForAuction` unless the asset is ready, then with
/// `OwnershipVerificationRequired` unless its ownership is verified.
pub fn internal_update_asset_status_to_in_auction(
    asset_account: &mut AssetAccount,
    auction_key: AccountKey,
) -> (r: Result<(), DubuuMarketplaceError>)
    ensures
        old(asset_account).asset_listed_status != AssetListedStatus::ReadyForAuction ==> r == Err::<(), _>(
            DubuuMarketplaceError::AssetNotReadyForAuction,
        ),
        old(asset_account).asset_listed_status == AssetListedStatus::ReadyForAuction
            && old(asset_account).ownership_verification_status != OwnershipStatus::Verified ==> r == Err::<(), _>(
            DubuuMarketplaceError::OwnershipVerificationRequired,
        ),
        r is Ok <==> old(asset_account).asset_listed_status == AssetListedStatus::ReadyForAuction
            && old(asset_account).ownership_verification_status == OwnershipStatus::Verified,
        r is Err ==> *final(asset_account) == *old(asset_account),
        r is Ok ==> *final(asset_account) == (AssetAccount {
            asset_listed_status: AssetListedStatus::InAuction,
            active_auction_key: Some(auction_key),
            ..*old(asset_account)
        }),
        old(asset_account).wf() ==> final(asset_account).wf(),
{
    if asset_account.asset_listed_status != AssetListedStatus::ReadyForAuction {
        return Err(DubuuMarketplaceError::AssetNotReadyForAuction);
    }
    if asset_account.ownership_verification_status != OwnershipStatus::Verified {
        return Err(DubuuMarketplaceError::OwnershipVerificationRequired);
    }
    asset_account.asset_listed_status = AssetListedStatus::InAuction;
    asset_account.active_auction_key = Some(auction_key);
    Ok(())
}

/// An asset once the auction it was in has ended unsold.
pub open spec fn returned_unsold(a: AssetAccount) -> AssetAccount {
    if a.asset_listed_status == AssetListedStatus::InAuction {
        AssetAccount { asset_listed_status: AssetListedStatus::ReadyForAuction, active_auction_key: None, ..a }
    } else {
        a
    }
}

/// Takes an asset back out of an auction that ended unsold: an asset in
/// auction becomes ready for auction again and no longer references the
/// auction, so its owner may relist it or update its metadata. An asset in
/// any other listing status is left as it is.
pub fn internal_return_unsold_asset(asset_account: &mut AssetAccount)
    ensures
        *final(asset_account) == returned_unsold(*old(asset_account)),
        old(asset_account).wf() ==> final(asset_account).wf(),
{
    if asset_account.asset_listed_status == AssetListedStatus::InAuction {
        asset_account.asset_listed_status = AssetListedStatus::ReadyForAuction;
        asset_account.active_auction_key = None;
    }
}

} // verus!
