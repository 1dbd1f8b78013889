use vstd::prelude::*;

verus! {

/// Every way an operation of the protocol can be rejected.
#[derive(Clone, Copy, PartialEq, Eq, Structural, Debug)]
pub enum ErrorCode {
    /// The protocol is currently paused.
    ProtocolPaused,
    /// This asset is not enabled for trading.
    AssetNotEnabled,
    /// Insufficient liquidity available in market maker vault.
    InsufficientLiquidity,
    /// Quote has expired.
    QuoteExpired,
    /// Quote is not active.
    QuoteNotActive,
    /// Strike price not found in quote.
    StrikePriceNotFound,
    /// Contract size below minimum.
    ContractSizeTooSmall,
    /// Contract size above maximum.
    ContractSizeTooLarge,
    /// Position has not expired yet.
    PositionNotExpired,
    /// Position is not active.
    PositionNotActive,
    /// Position has already been settled.
    PositionAlreadySettled,
    /// Oracle price is too stale.
    PriceTooStale,
    /// Oracle feed id mismatch.
    PythFeedIdMismatch,
    /// Invalid strike price range.
    InvalidStrikeRange,
    /// Invalid expiry range.
    InvalidExpiryRange,
    /// Math overflow.
    MathOverflow,
    /// Unauthorized.
    Unauthorized,
    /// Market maker is not active.
    MarketMakerNotActive,
    /// Too many strikes in quote.
    TooManyStrikes,
    /// Invalid quote parameters.
    InvalidQuoteParameters,
    /// Position request has expired.
    RequestExpired,
    /// Position request is not in pending status.
    RequestNotPending,
    /// Position request has not expired yet.
    RequestNotExpired,
    /// Only the market maker can confirm this request.
    UnauthorizedConfirmation,
    /// Market maker is not registered.
    MMNotRegistered,
    /// Market maker is not active in registry.
    MMNotActive,
    /// Invalid Ed25519 signature.
    InvalidSignature,
    /// Quote nonce has already been used.
    NonceAlreadyUsed,
    /// Intent is not in pending status.
    IntentNotPending,
    /// Intent has not expired yet.
    IntentNotExpired,
    /// Intent has already expired.
    IntentExpired,
    /// Intent is not in a resolvable status.
    IntentNotResolvable,
    /// Intent is already disputed.
    IntentAlreadyDisputed,
    /// Only user or market maker can flag dispute.
    UnauthorizedDispute,
    /// Invalid percentage value.
    InvalidPercentage,
    /// Dispute reason too long.
    DisputeReasonTooLong,
    /// Only the designated market maker can fill this intent.
    UnauthorizedFill,
    /// Signing key mismatch.
    SigningKeyMismatch,
    /// Invalid vault address.
    InvalidVault,
    /// A token account is not owned by the party it is passed for.
    ConstraintRaw,
    /// A registry or a nonce tracker is not that of the market maker it is
    /// passed for.
    ConstraintSeeds,
}

} // verus!
