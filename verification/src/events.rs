use vstd::prelude::*;

use crate::ids::AccountId;

verus! {

/// Notification of a purchase paid in the native coin. Returned by
/// `buy_tokens`; the host hands it to its notification sink.
#[derive(Clone, Copy, Debug, PartialEq, Eq, Structural)]
pub struct BuyTokensEvent {
    pub buyer: AccountId,
    /// Tokens credited, in user-facing whole-token units.
    pub tokens_purchased: u64,
    /// Payment amount in lamports.
    pub sol_spent: u64,
    /// The native price the purchase was converted at.
    pub sol_price_lamports_per_nlov: u64,
    pub payment_type: u8,
}

/// Notification of a purchase paid in a stable asset. Returned by
/// `buy_tokens_by_stable_coin`.
#[derive(Clone, Copy, Debug, PartialEq, Eq, Structural)]
pub struct BuyTokensByStableCoinEvent {
    pub buyer: AccountId,
    /// Tokens credited, in user-facing whole-token units.
    pub tokens_purchased: u64,
    /// Payment amount in the stable asset's user-facing units.
    pub stable_coin_amount: u64,
    pub payment_type: u8,
}

/// Notification of a price change. Returned by `update_sale_price`.
#[derive(Clone, Copy, Debug, PartialEq, Eq, Structural)]
pub struct UpdateSalePriceEvent {
    pub admin: AccountId,
    pub new_usd_price_cents: u64,
    pub new_sol_price_lamports: u64,
    pub sale_stage: u8,
}

/// Notification of finalization. Returned by `finalize_presale`.
#[derive(Clone, Copy, Debug, PartialEq, Eq, Structural)]
pub struct FinalizePresaleEvent {
    pub admin: AccountId,
    /// Unsold inventory moved out, in user-facing whole-token units.
    pub unsold_presale_tokens: u64,
}

/// A native-coin settlement the host must perform for a purchase: move
/// `lamports` from the buyer to the merchant wallet. The host's transfer
/// collaborator is all-or-nothing; if it fails, the host discards the whole
/// transaction, ledger mutation included.
#[derive(Clone, Copy, Debug, PartialEq, Eq, Structural)]
pub struct NativeTransfer {
    pub from: AccountId,
    pub to: AccountId,
    pub lamports: u64,
}

/// A stable-asset settlement the host must perform for a purchase: move
/// `amount_raw` of the asset under `mint` from the buyer's asset account to
/// the merchant's, on the same all-or-nothing terms as `NativeTransfer`.
#[derive(Clone, Copy, Debug, PartialEq, Eq, Structural)]
pub struct StableTransfer {
    pub mint: AccountId,
    pub from: AccountId,
    /// Payment amount in the stable asset's raw (smallest) units.
    pub amount_raw: u64,
}

/// The inventory sweep the host must perform for finalization: move
/// `amount_raw` from the sale's custody account to the liquidity
/// destination, signed by the ledger's own derived authority (its `bump`
/// seed), not by the admin's key.
#[derive(Clone, Copy, Debug, PartialEq, Eq, Structural)]
pub struct LiquidityTransfer {
    pub from: AccountId,
    pub to: AccountId,
    pub amount_raw: u64,
    pub authority_bump: u8,
}

/// What a successful native-coin purchase asks of the host: the settlement
/// to perform, if the payment mode is on-chain, and the event to emit.
#[derive(Clone, Copy, Debug, PartialEq, Eq, Structural)]
pub struct NativePurchase {
    pub transfer: Option<NativeTransfer>,
    pub event: BuyTokensEvent,
}

/// What a successful stable-asset purchase asks of the host.
#[derive(Clone, Copy, Debug, PartialEq, Eq, Structural)]
pub struct StablePurchase {
    pub transfer: Option<StableTransfer>,
    pub event: BuyTokensByStableCoinEvent,
}

/// What a successful finalization asks of the host: the sweep to perform,
/// if any inventory is unsold, and the event to emit.
#[derive(Clone, Copy, Debug, PartialEq, Eq, Structural)]
pub struct FinalizeOutcome {
    pub transfer: Option<LiquidityTransfer>,
    pub event: FinalizePresaleEvent,
}

} // verus!
