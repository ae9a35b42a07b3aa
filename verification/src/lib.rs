//! Ledger for a fixed-supply token presale.
//!
//! The library holds the sale's state machine, price-to-token conversion
//! arithmetic, hardcap and inventory accounting, and finalization, all as
//! verified functions over plain values. The host runtime supplies caller
//! identities, timestamps and custody balances, performs the balance
//! transfers that the operations request, and emits the events they return.

mod arith;
mod errors;
mod events;
mod finalize;
mod ids;
mod laws;
mod purchase;
mod stage;
mod state;

pub use arith::lemma_pow10_19_fits;
pub use arith::lemma_pow10_monotone;
pub use arith::lemma_pow10_pos;
pub use arith::pow10;
pub use arith::pow10_checked;
pub use errors::PresaleError;
pub use events::BuyTokensByStableCoinEvent;
pub use events::BuyTokensEvent;
pub use events::FinalizeOutcome;
pub use events::FinalizePresaleEvent;
pub use events::LiquidityTransfer;
pub use events::NativePurchase;
pub use events::NativeTransfer;
pub use events::StablePurchase;
pub use events::StableTransfer;
pub use events::UpdateSalePriceEvent;
pub use finalize::finalize_presale;
pub use ids::AccountId;
pub use ids::StableAssetRegistry;
pub use laws::lemma_finalize_one_shot;
pub use laws::lemma_hardcap_boundary;
pub use laws::lemma_underpayment_rejected;
pub use purchase::buy_tokens;
pub use purchase::buy_tokens_by_stable_coin;
pub use purchase::check_presale_token_balance;
pub use purchase::has_inventory;
pub use purchase::native_quote_ok;
pub use purchase::native_tokens_raw;
pub use purchase::native_user_units;
pub use purchase::remaining_raw;
pub use purchase::stable_checks_passed;
pub use purchase::stable_quote_ok;
pub use purchase::stable_tokens_raw;
pub use purchase::stable_user_units;
pub use purchase::within_hardcap;
pub use stage::set_stage;
pub use stage::update_sale_period;
pub use stage::update_sale_price;
pub use state::initialize;
pub use state::Presale;
