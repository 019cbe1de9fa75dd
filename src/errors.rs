use vstd::prelude::*;

verus! {

/// Every way an operation of the marketplace can be rejected. A rejected
/// operation changes no record and moves no funds.
#[derive(Clone, Copy, Debug, PartialEq, Eq, Structural)]
pub enum DubuuMarketplaceError {
    Unauthorized,
    InvalidPerenaMint,
    MarketplacePaused,
    OwnershipVerificationRequired,
    AssetNotReadyForAuction,
    AssetAlreadyInAuction,
    AuctionEnded,
    AuctionNotEnded,
    BidTooLow,
    InvalidAuctionStatus,
    InvalidAssetStatus,
    InvalidAttestationData,
    StringTooLong,
    InvalidTokenAccountOwner,
    InvalidTreasuryAccount,
    InvalidRentRecipient,
    TimestampOverflow,
    CalculationOverflow,
    MissingPreviousBidderAccount,
    NotAuctionWinner,
    InvalidAssetAccount,
    AuctionNotInActiveState,
    AuctionNotInSettlementState,
    AssetStatusPreventsUpdate,
    AuctionNotActive,
    InvalidSellerAccountForRent,
}

/// The human-readable message of each error.
pub open spec fn message_of(e: DubuuMarketplaceError) -> &'static str {
    match e {
        DubuuMarketplaceError::Unauthorized => "Unauthorized access or action",
        DubuuMarketplaceError::InvalidPerenaMint => "Invalid Perena USD* mint address provided",
        DubuuMarketplaceError::MarketplacePaused => "Marketplace operations are currently paused",
        DubuuMarketplaceError::OwnershipVerificationRequired => "Asset ownership verification is required before this action",
        DubuuMarketplaceError::AssetNotReadyForAuction => "Asset is not in the correct state to be listed for auction",
        DubuuMarketplaceError::AssetAlreadyInAuction => "Asset is already in an active auction",
        DubuuMarketplaceError::AuctionEnded => "Auction has already ended",
        DubuuMarketplaceError::AuctionNotEnded => "Auction has not ended yet",
        DubuuMarketplaceError::BidTooLow => "Bid amount is too low or not greater than the current highest bid",
        DubuuMarketplaceError::InvalidAuctionStatus => "Auction is not in the expected status for this operation",
        DubuuMarketplaceError::InvalidAssetStatus => "Asset is not in the expected status for this operation",
        DubuuMarketplaceError::InvalidAttestationData => "Cross-chain attestation data is invalid or malformed",
        DubuuMarketplaceError::StringTooLong => "Provided string exceeds maximum allowed length",
        DubuuMarketplaceError::InvalidTokenAccountOwner => "Token account owner does not match the expected owner",
        DubuuMarketplaceError::InvalidTreasuryAccount => "Provided treasury account does not match the configured treasury account",
        DubuuMarketplaceError::InvalidRentRecipient => "The specified account is not valid for receiving rent (e.g., not the seller)",
        DubuuMarketplaceError::TimestampOverflow => "Timestamp calculation resulted in an overflow or invalid time",
        DubuuMarketplaceError::CalculationOverflow => "Arithmetic calculation resulted in an overflow or underflow",
        DubuuMarketplaceError::MissingPreviousBidderAccount => "Required token account for the previous highest bidder was not provided when necessary",
        DubuuMarketplaceError::NotAuctionWinner => "Signer is not the recorded winner of the auction",
        DubuuMarketplaceError::InvalidAssetAccount => "Provided asset account is not the one associated with this auction or operation",
        DubuuMarketplaceError::AuctionNotInActiveState => "Auction is not in an active state for bidding or finalization attempts",
        DubuuMarketplaceError::AuctionNotInSettlementState => "Auction is not in the correct state for settlement (e.g., not EndedSoldPayPending)",
        DubuuMarketplaceError::AssetStatusPreventsUpdate => "Current asset status prevents this update or operation",
        DubuuMarketplaceError::AuctionNotActive => "Auction is not active",
        DubuuMarketplaceError::InvalidSellerAccountForRent => "Invalid seller account for rent",
    }
}

impl DubuuMarketplaceError {
    /// The human-readable message of the error.
    pub fn message(&self) -> (r: &'static str)
        ensures
            r == message_of(*self),
    {
        match self {
            DubuuMarketplaceError::Unauthorized => "Unauthorized access or action",
            DubuuMarketplaceError::InvalidPerenaMint => "Invalid Perena USD* mint address provided",
            DubuuMarketplaceError::MarketplacePaused => "Marketplace operations are currently paused",
            DubuuMarketplaceError::OwnershipVerificationRequired => "Asset ownership verification is required before this action",
            DubuuMarketplaceError::AssetNotReadyForAuction => "Asset is not in the correct state to be listed for auction",
            DubuuMarketplaceError::AssetAlreadyInAuction => "Asset is already in an active auction",
            DubuuMarketplaceError::AuctionEnded => "Auction has already ended",
            DubuuMarketplaceError::AuctionNotEnded => "Auction has not ended yet",
            DubuuMarketplaceError::BidTooLow => "Bid amount is too low or not greater than the current highest bid",
            DubuuMarketplaceError::InvalidAuctionStatus => "Auction is not in the expected status for this operation",
            DubuuMarketplaceError::InvalidAssetStatus => "Asset is not in the expected status for this operation",
            DubuuMarketplaceError::InvalidAttestationData => "Cross-chain attestation data is invalid or malformed",
            DubuuMarketplaceError::StringTooLong => "Provided string exceeds maximum allowed length",
            DubuuMarketplaceError::InvalidTokenAccountOwner => "Token account owner does not match the expected owner",
            DubuuMarketplaceError::InvalidTreasuryAccount => "Provided treasury account does not match the configured treasury account",
            DubuuMarketplaceError::InvalidRentRecipient => "The specified account is not valid for receiving rent (e.g., not the seller)",
            DubuuMarketplaceError::TimestampOverflow => "Timestamp calculation resulted in an overflow or invalid time",
            DubuuMarketplaceError::CalculationOverflow => "Arithmetic calculation resulted in an overflow or underflow",
            DubuuMarketplaceError::MissingPreviousBidderAccount => "Required token account for the previous highest bidder was not provided when necessary",
            DubuuMarketplaceError::NotAuctionWinner => "Signer is not the recorded winner of the auction",
            DubuuMarketplaceError::InvalidAssetAccount => "Provided asset account is not the one associated with this auction or operation",
            DubuuMarketplaceError::AuctionNotInActiveState => "Auction is not in an active state for bidding or finalization attempts",
            DubuuMarketplaceError::AuctionNotInSettlementState => "Auction is not in the correct state for settlement (e.g., not EndedSoldPayPending)",
            DubuuMarketplaceError::AssetStatusPreventsUpdate => "Current asset status prevents this update or operation",
            DubuuMarketplaceError::AuctionNotActive => "Auction is not active",
            DubuuMarketplaceError::InvalidSellerAccountForRent => "Invalid seller account for rent",
        }
    }
}

} // verus!
