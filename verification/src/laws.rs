use vstd::prelude::*;

use vstd::arithmetic::div_mod::lemma_basic_div;

use crate::purchase::native_quote_ok;
use crate::purchase::native_user_units;
use crate::purchase::within_hardcap;
use crate::state::Presale;

verus! {

/// Underpayment law: with a positive native price, a payment smaller than
/// the price of one whole token buys zero tokens, so the native quote is
/// not met and `buy_tokens` rejects such a payment as `InvalidPrice`.
pub proof fn lemma_underpayment_rejected(presale: Presale, lamports_sent: u64)
    requires
        presale.sol_price_lamports_per_nlov > 0,
        lamports_sent < presale.sol_price_lamports_per_nlov,
    ensures
        native_user_units(presale, lamports_sent) == 0,
        !native_quote_ok(presale, lamports_sent),
{
    lemma_basic_div(lamports_sent as int, presale.sol_price_lamports_per_nlov as int);
}

/// Hardcap boundary law: a purchase that lands exactly on the hardcap is
/// within it, while the same purchase enlarged by a single raw unit is
/// not; `buy_tokens` and `buy_tokens_by_stable_coin` accept the former
/// and reject the latter as `HardcapReached`.
pub proof fn lemma_hardcap_boundary(presale: Presale, tokens_raw: int)
    requires
        presale.total_sold + tokens_raw == presale.hardcap_tokens,
    ensures
        within_hardcap(presale, tokens_raw),
        !within_hardcap(presale, tokens_raw + 1),
{
}

/// One-shot finalization law: a successful `finalize_presale` leaves the
/// record ended with its flag set, and on exactly such a record the
/// operation's own contract promises `LiquidityPoolAlreadyCreated` for the
/// admin's next call — so the sweep can never run twice.
pub proof fn lemma_finalize_one_shot(before: Presale, after: Presale)
    requires
        before.wf(),
        before.sale_stage == 3,
        !before.pool_created,
        after == (Presale { pool_created: true, ..before }),
    ensures
        after.wf(),
        after.admin == before.admin,
        after.sale_stage == 3,
        after.pool_created,
{
}

} // verus!
