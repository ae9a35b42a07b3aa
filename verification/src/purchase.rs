use vstd::prelude::*;

use crate::arith::lemma_pow10_19_fits;
use crate::arith::lemma_pow10_monotone;
use crate::arith::lemma_pow10_pos;
use crate::arith::pow10;
use crate::arith::pow10_checked;
use crate::errors::PresaleError;
use crate::events::BuyTokensByStableCoinEvent;
use crate::events::BuyTokensEvent;
use crate::events::NativePurchase;
use crate::events::NativeTransfer;
use crate::events::StablePurchase;
use crate::events::StableTransfer;
use crate::ids::AccountId;
use crate::ids::StableAssetRegistry;
use crate::state::Presale;

verus! {

/// Whole tokens bought by a native-coin payment of `lamports_sent`:
/// the payment divided by the native unit price, floored. Meaningful only
/// when the price is positive.
pub open spec fn native_user_units(presale: Presale, lamports_sent: u64) -> int {
    lamports_sent as int / presale.sol_price_lamports_per_nlov as int
}

/// Whether a native-coin payment buys at least one whole token at a
/// positive price. Payments below this floor are rejected; the remainder
/// under one token's price is never credited.
pub open spec fn native_quote_ok(presale: Presale, lamports_sent: u64) -> bool {
    &&& presale.sol_price_lamports_per_nlov > 0
    &&& native_user_units(presale, lamports_sent) >= 1
}

/// The native purchase in the token's raw units: whole tokens scaled by
/// the token's decimals.
pub open spec fn native_tokens_raw(presale: Presale, lamports_sent: u64, token_decimals: u8) -> int {
    native_user_units(presale, lamports_sent) * pow10(token_decimals as nat)
}

/// Whole tokens bought by a stable-asset payment of `amount` user units:
/// one stable user unit counts as 100 USD cents, whatever the asset's own
/// decimals, and the cents are divided by the USD unit price, floored.
pub open spec fn stable_user_units(presale: Presale, amount: u64) -> int {
    (amount as int * 100) / presale.usd_price_cents_per_nlov as int
}

/// Whether a stable-asset payment buys at least one whole token at a
/// positive USD price.
pub open spec fn stable_quote_ok(presale: Presale, amount: u64) -> bool {
    &&& presale.usd_price_cents_per_nlov > 0
    &&& stable_user_units(presale, amount) >= 1
}

/// The stable-asset purchase in the token's raw units.
pub open spec fn stable_tokens_raw(presale: Presale, amount: u64, token_decimals: u8) -> int {
    stable_user_units(presale, amount) * pow10(token_decimals as nat)
}

/// Whether a purchase of `tokens_raw` raw units keeps the cumulative sold
/// amount within the hardcap.
pub open spec fn within_hardcap(presale: Presale, tokens_raw: int) -> bool {
    presale.total_sold + tokens_raw <= presale.hardcap_tokens
}

/// Whether the custody account holds enough unreserved inventory for a
/// purchase of `tokens_raw` raw units: its balance less what is already
/// sold covers the purchase.
pub open spec fn has_inventory(presale: Presale, wallet_balance: u64, tokens_raw: int) -> bool {
    wallet_balance as int - presale.total_sold as int >= tokens_raw
}

/// The unreserved inventory left in the custody account, in raw units;
/// zero when the recorded sales exceed the balance.
pub open spec fn remaining_raw(presale: Presale, wallet_balance: u64) -> int {
    if wallet_balance >= presale.total_sold {
        wallet_balance - presale.total_sold
    } else {
        0
    }
}

/// Scaling a positive count by a positive scale keeps it at least as large
/// as the scale, and at least one.
proof fn lemma_scale_lower_bound(count: int, scale: int)
    by (nonlinear_arith)
    requires
        count >= 1,
        scale >= 1,
    ensures
        count * scale >= scale,
        count * scale >= 1,
{
}

/// Purchase paid in the native coin. Validates the stage, converts the
/// payment to whole tokens at the native price (flooring; a payment under
/// one token's price is rejected), scales to raw units, enforces the
/// hardcap and the custody inventory, and only then credits the sale.
/// On success the returned value carries the settlement the host must
/// perform — an on-chain transfer of the payment to the merchant wallet
/// when `payment_type` is 0, nothing when it is 1 (externally settled) —
/// and the event to emit. The host's transfer is all-or-nothing: if it
/// fails, the host discards the whole transaction, so no partial purchase
/// survives. On any error the ledger is unchanged.
pub fn buy_tokens(
    presale: &mut Presale,
    buyer: AccountId,
    payment_type: u8,
    lamports_sent: u64,
    token_decimals: u8,
    presale_wallet_balance: u64,
) -> (r: Result<NativePurchase, PresaleError>)
    requires
        old(presale).wf(),
    ensures
        final(presale).wf(),
        final(presale).sale_stage == old(presale).sale_stage,
        r is Err ==> *final(presale) == *old(presale),
        r == Err::<NativePurchase, PresaleError>(PresaleError::PresaleNotActive) <==> !old(
            presale,
        ).is_active(),
        r == Err::<NativePurchase, PresaleError>(PresaleError::InvalidPrice) <==> old(
            presale,
        ).is_active() && !native_quote_ok(*old(presale), lamports_sent),
        r == Err::<NativePurchase, PresaleError>(PresaleError::ArithmeticOverflow) <==> old(
            presale,
        ).is_active() && native_quote_ok(*old(presale), lamports_sent) && native_tokens_raw(
            *old(presale),
            lamports_sent,
            token_decimals,
        ) > u64::MAX,
        r == Err::<NativePurchase, PresaleError>(PresaleError::HardcapReached) <==> old(
            presale,
        ).is_active() && native_quote_ok(*old(presale), lamports_sent) && native_tokens_raw(
            *old(presale),
            lamports_sent,
            token_decimals,
        ) <= u64::MAX && !within_hardcap(
            *old(presale),
            native_tokens_raw(*old(presale), lamports_sent, token_decimals),
        ),
        r == Err::<NativePurchase, PresaleError>(PresaleError::InsufficientTokens) <==> old(
            presale,
        ).is_active() && native_quote_ok(*old(presale), lamports_sent) && native_tokens_raw(
            *old(presale),
            lamports_sent,
            token_decimals,
        ) <= u64::MAX && within_hardcap(
            *old(presale),
            native_tokens_raw(*old(presale), lamports_sent, token_decimals),
        ) && !has_inventory(
            *old(presale),
            presale_wallet_balance,
            native_tokens_raw(*old(presale), lamports_sent, token_decimals),
        ),
        r == Err::<NativePurchase, PresaleError>(PresaleError::InvalidPaymentType) <==> old(
            presale,
        ).is_active() && native_quote_ok(*old(presale), lamports_sent) && native_tokens_raw(
            *old(presale),
            lamports_sent,
            token_decimals,
        ) <= u64::MAX && within_hardcap(
            *old(presale),
            native_tokens_raw(*old(presale), lamports_sent, token_decimals),
        ) && has_inventory(
            *old(presale),
            presale_wallet_balance,
            native_tokens_raw(*old(presale), lamports_sent, token_decimals),
        ) && payment_type > 1,
        r is Ok <==> old(presale).is_active() && native_quote_ok(*old(presale), lamports_sent)
            && native_tokens_raw(*old(presale), lamports_sent, token_decimals) <= u64::MAX
            && within_hardcap(
            *old(presale),
            native_tokens_raw(*old(presale), lamports_sent, token_decimals),
        ) && has_inventory(
            *old(presale),
            presale_wallet_balance,
            native_tokens_raw(*old(presale), lamports_sent, token_decimals),
        ) && payment_type <= 1,
        r is Ok ==> *final(presale) == (Presale {
            total_sold: (old(presale).total_sold + native_tokens_raw(
                *old(presale),
                lamports_sent,
                token_decimals,
            )) as u64,
            ..*old(presale)
        }),
        r is Ok ==> final(presale).total_sold > old(presale).total_sold,
        r is Ok ==> r->Ok_0.event == (BuyTokensEvent {
            buyer,
            tokens_purchased: native_user_units(*old(presale), lamports_sent) as u64,
            sol_spent: lamports_sent,
            sol_price_lamports_per_nlov: old(presale).sol_price_lamports_per_nlov,
            payment_type,
        }),
        r is Ok && payment_type == 0 ==> r->Ok_0.transfer == Some(
            NativeTransfer { from: buyer, to: old(presale).merchant_wallet, lamports: lamports_sent },
        ),
        r is Ok && payment_type == 1 ==> r->Ok_0.transfer is None,
{
    if !(presale.sale_stage == 1 || presale.sale_stage == 2) {
        return Err(PresaleError::PresaleNotActive);
    }
    let price = presale.sol_price_lamports_per_nlov;
    if price == 0 {
        return Err(PresaleError::InvalidPrice);
    }
    let tokens_user_units = lamports_sent / price;
    if tokens_user_units < 1 {
        return Err(PresaleError::InvalidPrice);
    }
    let scale = match pow10_checked(token_decimals) {
        Some(s) => s,
        None => {
            proof {
                lemma_scale_lower_bound(
                    native_user_units(*presale, lamports_sent),
                    pow10(token_decimals as nat) as int,
                );
            }
            return Err(PresaleError::ArithmeticOverflow);
        },
    };
    let tokens_raw = match tokens_user_units.checked_mul(scale) {
        Some(t) => t,
        None => {
            return Err(PresaleError::ArithmeticOverflow);
        },
    };
    proof {
        lemma_pow10_pos(token_decimals as nat);
        lemma_scale_lower_bound(
            native_user_units(*presale, lamports_sent),
            pow10(token_decimals as nat) as int,
        );
    }
    let new_total = match presale.total_sold.checked_add(tokens_raw) {
        Some(t) => t,
        None => {
            return Err(PresaleError::HardcapReached);
        },
    };
    if new_total > presale.hardcap_tokens {
        return Err(PresaleError::HardcapReached);
    }
    if presale_wallet_balance.saturating_sub(presale.total_sold) < tokens_raw {
        return Err(PresaleError::InsufficientTokens);
    }
    if payment_type > 1 {
        return Err(PresaleError::InvalidPaymentType);
    }
    presale.total_sold = new_total;
    let transfer = if payment_type == 0 {
        Some(NativeTransfer { from: buyer, to: presale.merchant_wallet, lamports: lamports_sent })
    } else {
        None
    };
    Ok(
        NativePurchase {
            transfer,
            event: BuyTokensEvent {
                buyer,
                tokens_purchased: tokens_user_units,
                sol_spent: lamports_sent,
                sol_price_lamports_per_nlov: price,
                payment_type,
            },
        },
    )
}

/// Purchase paid in a stable-pegged asset. The payment asset must be on
/// the allow-list; the payment (in the asset's user units, at least one)
/// is valued at 100 USD cents per unit regardless of the asset's own
/// decimals, converted to whole tokens at the USD price (flooring; a
/// payment that buys no whole token is rejected), scaled to raw units,
/// and held to the same hardcap and inventory rules as the native rail.
/// On success the returned value carries the settlement the host must
/// perform — a transfer of the payment, in the asset's raw units, from
/// the buyer's asset account to the merchant's when `payment_type` is 0,
/// nothing when it is 1 — and the event to emit. On any error the ledger
/// is unchanged.
pub fn buy_tokens_by_stable_coin(
    presale: &mut Presale,
    registry: &StableAssetRegistry,
    buyer: AccountId,
    payment_type: u8,
    stable_coin_mint: AccountId,
    stable_coin_decimals: u8,
    stable_coin_amount_user_units: u64,
    token_decimals: u8,
    presale_wallet_balance: u64,
) -> (r: Result<StablePurchase, PresaleError>)
    requires
        old(presale).wf(),
    ensures
        final(presale).wf(),
        final(presale).sale_stage == old(presale).sale_stage,
        r is Err ==> *final(presale) == *old(presale),
        r == Err::<StablePurchase, PresaleError>(PresaleError::InvalidStableToken)
            <==> !registry.spec_accepts(stable_coin_mint),
        r == Err::<StablePurchase, PresaleError>(PresaleError::PresaleNotActive)
            <==> registry.spec_accepts(stable_coin_mint) && stable_coin_amount_user_units >= 1
            && !old(presale).is_active(),
        r == Err::<StablePurchase, PresaleError>(PresaleError::ArithmeticOverflow)
            <==> registry.spec_accepts(stable_coin_mint) && stable_coin_amount_user_units >= 1
            && old(presale).is_active() && (stable_coin_amount_user_units * pow10(
            stable_coin_decimals as nat,
        ) > u64::MAX || stable_coin_amount_user_units * 100 > u64::MAX || (stable_quote_ok(
            *old(presale),
            stable_coin_amount_user_units,
        ) && stable_tokens_raw(*old(presale), stable_coin_amount_user_units, token_decimals)
            > u64::MAX)),
        r == Err::<StablePurchase, PresaleError>(PresaleError::InvalidPrice) <==> registry.spec_accepts(
            stable_coin_mint,
        ) && (stable_coin_amount_user_units < 1 || (old(presale).is_active()
            && stable_coin_amount_user_units * pow10(stable_coin_decimals as nat) <= u64::MAX
            && stable_coin_amount_user_units * 100 <= u64::MAX && !stable_quote_ok(
            *old(presale),
            stable_coin_amount_user_units,
        ))),
        r == Err::<StablePurchase, PresaleError>(PresaleError::HardcapReached) <==> stable_checks_passed(
            *old(presale),
            *registry,
            stable_coin_mint,
            stable_coin_decimals,
            stable_coin_amount_user_units,
            token_decimals,
        ) && !within_hardcap(
            *old(presale),
            stable_tokens_raw(*old(presale), stable_coin_amount_user_units, token_decimals),
        ),
        r == Err::<StablePurchase, PresaleError>(PresaleError::InsufficientTokens)
            <==> stable_checks_passed(
            *old(presale),
            *registry,
            stable_coin_mint,
            stable_coin_decimals,
            stable_coin_amount_user_units,
            token_decimals,
        ) && within_hardcap(
            *old(presale),
            stable_tokens_raw(*old(presale), stable_coin_amount_user_units, token_decimals),
        ) && !has_inventory(
            *old(presale),
            presale_wallet_balance,
            stable_tokens_raw(*old(presale), stable_coin_amount_user_units, token_decimals),
        ),
        r == Err::<StablePurchase, PresaleError>(PresaleError::InvalidPaymentType)
            <==> stable_checks_passed(
            *old(presale),
            *registry,
            stable_coin_mint,
            stable_coin_decimals,
            stable_coin_amount_user_units,
            token_decimals,
        ) && within_hardcap(
            *old(presale),
            stable_tokens_raw(*old(presale), stable_coin_amount_user_units, token_decimals),
        ) && has_inventory(
            *old(presale),
            presale_wallet_balance,
            stable_tokens_raw(*old(presale), stable_coin_amount_user_units, token_decimals),
        ) && payment_type > 1,
        r is Ok <==> stable_checks_passed(
            *old(presale),
            *registry,
            stable_coin_mint,
            stable_coin_decimals,
            stable_coin_amount_user_units,
            token_decimals,
        ) && within_hardcap(
            *old(presale),
            stable_tokens_raw(*old(presale), stable_coin_amount_user_units, token_decimals),
        ) && has_inventory(
            *old(presale),
            presale_wallet_balance,
            stable_tokens_raw(*old(presale), stable_coin_amount_user_units, token_decimals),
        ) && payment_type <= 1,
        r is Ok ==> *final(presale) == (Presale {
            total_sold: (old(presale).total_sold + stable_tokens_raw(
                *old(presale),
                stable_coin_amount_user_units,
                token_decimals,
            )) as u64,
            ..*old(presale)
        }),
        r is Ok ==> final(presale).total_sold > old(presale).total_sold,
        r is Ok ==> r->Ok_0.event == (BuyTokensByStableCoinEvent {
            buyer,
            tokens_purchased: stable_user_units(*old(presale), stable_coin_amount_user_units)
                as u64,
            stable_coin_amount: stable_coin_amount_user_units,
            payment_type,
        }),
        r is Ok && payment_type == 0 ==> r->Ok_0.transfer == Some(
            StableTransfer {
                mint: stable_coin_mint,
                from: buyer,
                amount_raw: (stable_coin_amount_user_units * pow10(
                    stable_coin_decimals as nat,
                )) as u64,
            },
        ),
        r is Ok && payment_type == 1 ==> r->Ok_0.transfer is None,
{
    if !registry.accepts(stable_coin_mint) {
        return Err(PresaleError::InvalidStableToken);
    }
    if stable_coin_amount_user_units < 1 {
        return Err(PresaleError::InvalidPrice);
    }
    if !(presale.sale_stage == 1 || presale.sale_stage == 2) {
        return Err(PresaleError::PresaleNotActive);
    }
    let stable_scale = match pow10_checked(stable_coin_decimals) {
        Some(s) => s,
        None => {
            proof {
                lemma_scale_lower_bound(
                    stable_coin_amount_user_units as int,
                    pow10(stable_coin_decimals as nat) as int,
                );
            }
            return Err(PresaleError::ArithmeticOverflow);
        },
    };
    let stable_coin_amount_raw = match stable_coin_amount_user_units.checked_mul(stable_scale) {
        Some(t) => t,
        None => {
            return Err(PresaleError::ArithmeticOverflow);
        },
    };
    let stable_coin_amount_cents = match stable_coin_amount_user_units.checked_mul(100) {
        Some(t) => t,
        None => {
            return Err(PresaleError::ArithmeticOverflow);
        },
    };
    let price = presale.usd_price_cents_per_nlov;
    if price == 0 {
        return Err(PresaleError::InvalidPrice);
    }
    let tokens_user_units = stable_coin_amount_cents / price;
    if tokens_user_units < 1 {
        return Err(PresaleError::InvalidPrice);
    }
    let token_scale = match pow10_checked(token_decimals) {
        Some(s) => s,
        None => {
            proof {
                lemma_scale_lower_bound(
                    stable_user_units(*presale, stable_coin_amount_user_units),
                    pow10(token_decimals as nat) as int,
                );
            }
            return Err(PresaleError::ArithmeticOverflow);
        },
    };
    let tokens_raw = match tokens_user_units.checked_mul(token_scale) {
        Some(t) => t,
        None => {
            return Err(PresaleError::ArithmeticOverflow);
        },
    };
    proof {
        lemma_pow10_pos(token_decimals as nat);
        lemma_scale_lower_bound(
            stable_user_units(*presale, stable_coin_amount_user_units),
            pow10(token_decimals as nat) as int,
        );
    }
    let new_total = match presale.total_sold.checked_add(tokens_raw) {
        Some(t) => t,
        None => {
            return Err(PresaleError::HardcapReached);
        },
    };
    if new_total > presale.hardcap_tokens {
        return Err(PresaleError::HardcapReached);
    }
    if presale_wallet_balance.saturating_sub(presale.total_sold) < tokens_raw {
        return Err(PresaleError::InsufficientTokens);
    }
    if payment_type > 1 {
        return Err(PresaleError::InvalidPaymentType);
    }
    presale.total_sold = new_total;
    let transfer = if payment_type == 0 {
        Some(
            StableTransfer {
                mint: stable_coin_mint,
                from: buyer,
                amount_raw: stable_coin_amount_raw,
            },
        )
    } else {
        None
    };
    Ok(
        StablePurchase {
            transfer,
            event: BuyTokensByStableCoinEvent {
                buyer,
                tokens_purchased: tokens_user_units,
                stable_coin_amount: stable_coin_amount_user_units,
                payment_type,
            },
        },
    )
}

/// The guards of a stable-asset purchase that precede the hardcap check:
/// the asset is on the allow-list, the payment is at least one user unit,
/// the sale is active, the asset's raw amount and its cent value fit in
/// 64 bits, the quote buys at least one whole token, and the purchase's
/// raw amount fits in 64 bits.
pub open spec fn stable_checks_passed(
    presale: Presale,
    registry: StableAssetRegistry,
    stable_coin_mint: AccountId,
    stable_coin_decimals: u8,
    stable_coin_amount_user_units: u64,
    token_decimals: u8,
) -> bool {
    &&& registry.spec_accepts(stable_coin_mint)
    &&& stable_coin_amount_user_units >= 1
    &&& presale.is_active()
    &&& stable_coin_amount_user_units * pow10(stable_coin_decimals as nat) <= u64::MAX
    &&& stable_coin_amount_user_units * 100 <= u64::MAX
    &&& stable_quote_ok(presale, stable_coin_amount_user_units)
    &&& stable_tokens_raw(presale, stable_coin_amount_user_units, token_decimals) <= u64::MAX
}

/// Read-only inventory query: the unreserved balance of the custody
/// account — its raw balance less what is already sold, floored at zero —
/// converted to user-facing whole-token units.
pub fn check_presale_token_balance(
    presale: &Presale,
    presale_wallet_balance: u64,
    token_decimals: u8,
) -> (r: u64)
    requires
        token_decimals <= 19,
    ensures
        r == remaining_raw(*presale, presale_wallet_balance) / pow10(token_decimals as nat) as int,
{
    proof {
        lemma_pow10_monotone(token_decimals as nat, 19);
        lemma_pow10_19_fits();
        lemma_pow10_pos(token_decimals as nat);
    }
    let remaining_tokens_raw = presale_wallet_balance.saturating_sub(presale.total_sold);
    let scale = pow10_checked(token_decimals).unwrap();
    remaining_tokens_raw / scale
}

} // verus!
