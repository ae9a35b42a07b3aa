use vstd::prelude::*;

verus! {

/// Typed business-rule failures. Every operation that fails returns one of
/// these and leaves the ledger exactly as it was before the call.
#[derive(Clone, Copy, Debug, PartialEq, Eq, Structural)]
pub enum PresaleError {
    /// An account handed to an operation is not the one the ledger expects.
    InvalidTokenAccount,
    /// The private-sale window has not elapsed yet.
    PrivateSaleNotOver,
    /// The public-sale window has not elapsed yet.
    PublicSaleNotOver,
    /// The sale has already reached its terminal stage.
    SaleAlreadyEnded,
    /// The sale is not in a purchasing stage.
    PresaleNotActive,
    /// The sale has not ended yet, so it cannot be finalized.
    PresaleActive,
    /// Not enough unreserved inventory remains in the sale's custody account.
    InsufficientTokens,
    /// The payment does not cover the purchase.
    InsufficientFunds,
    /// The payment asset is not on the stable-asset allow-list.
    InvalidStableToken,
    /// The buyer's stable-asset balance does not cover the purchase.
    InsufficientStableCoin,
    /// The payment mode tag is neither on-chain transfer nor external settlement.
    InvalidPaymentType,
    /// The configured price is zero, or the payment buys less than one whole token.
    InvalidPrice,
    /// The caller is not the sale's admin.
    Unauthorized,
    /// Finalization has already run; it is one-shot.
    LiquidityPoolAlreadyCreated,
    /// No unsold tokens remain to move.
    NoUnsoldTokens,
    /// The purchase would push the total sold past the hardcap.
    HardcapReached,
    /// A raw-unit amount does not fit in 64 bits; the operation fails closed.
    ArithmeticOverflow,
}

} // verus!
