use vstd::prelude::*;

use crate::arith::lemma_pow10_pos;
use crate::arith::pow10;
use crate::arith::pow10_checked;
use crate::errors::PresaleError;
use crate::events::FinalizeOutcome;
use crate::events::FinalizePresaleEvent;
use crate::events::LiquidityTransfer;
use crate::ids::AccountId;
use crate::purchase::remaining_raw;
use crate::state::Presale;

verus! {

/// One-time sweep of the unsold inventory. Only the admin may finalize,
/// only once the sale has ended, and only once: the `pool_created` flag
/// rejects every later attempt, so the sweep can never run twice. On
/// success the returned value carries the transfer the host must perform
/// — the whole unsold balance of the custody account to the liquidity
/// destination, if anything is unsold — and the event to emit. The
/// transfer is authorized by the ledger's own derived signing authority
/// (its `bump` seed), not the admin's key. On any error the ledger is
/// unchanged, the flag included.
pub fn finalize_presale(
    presale: &mut Presale,
    caller: AccountId,
    presale_wallet_balance: u64,
    liquidity_wallet: AccountId,
    token_decimals: u8,
) -> (r: Result<FinalizeOutcome, PresaleError>)
    requires
        old(presale).wf(),
    ensures
        final(presale).wf(),
        final(presale).sale_stage == old(presale).sale_stage,
        final(presale).total_sold == old(presale).total_sold,
        r is Err ==> *final(presale) == *old(presale),
        r == Err::<FinalizeOutcome, PresaleError>(PresaleError::Unauthorized) <==> caller != old(
            presale,
        ).admin,
        r == Err::<FinalizeOutcome, PresaleError>(PresaleError::PresaleActive) <==> caller == old(
            presale,
        ).admin && old(presale).sale_stage != 3,
        r == Err::<FinalizeOutcome, PresaleError>(PresaleError::LiquidityPoolAlreadyCreated)
            <==> caller == old(presale).admin && old(presale).sale_stage == 3 && old(
            presale,
        ).pool_created,
        r == Err::<FinalizeOutcome, PresaleError>(PresaleError::ArithmeticOverflow) <==> caller
            == old(presale).admin && old(presale).sale_stage == 3 && !old(presale).pool_created
            && pow10(token_decimals as nat) > u64::MAX,
        r is Ok <==> caller == old(presale).admin && old(presale).sale_stage == 3 && !old(
            presale,
        ).pool_created && pow10(token_decimals as nat) <= u64::MAX,
        r is Ok ==> *final(presale) == (Presale { pool_created: true, ..*old(presale) }),
        r is Ok && remaining_raw(*old(presale), presale_wallet_balance) > 0 ==> r->Ok_0.transfer
            == Some(
            LiquidityTransfer {
                from: old(presale).presale_wallet,
                to: liquidity_wallet,
                amount_raw: remaining_raw(*old(presale), presale_wallet_balance) as u64,
                authority_bump: old(presale).bump,
            },
        ),
        r is Ok && remaining_raw(*old(presale), presale_wallet_balance) == 0 ==> r->Ok_0.transfer
            is None,
        r is Ok ==> r->Ok_0.event == (FinalizePresaleEvent {
            admin: caller,
            unsold_presale_tokens: (remaining_raw(*old(presale), presale_wallet_balance) / pow10(
                token_decimals as nat,
            ) as int) as u64,
        }),
{
    if caller != presale.admin {
        return Err(PresaleError::Unauthorized);
    }
    if presale.sale_stage != 3 {
        return Err(PresaleError::PresaleActive);
    }
    if presale.pool_created {
        return Err(PresaleError::LiquidityPoolAlreadyCreated);
    }
    let scale = match pow10_checked(token_decimals) {
        Some(s) => s,
        None => {
            return Err(PresaleError::ArithmeticOverflow);
        },
    };
    proof {
        lemma_pow10_pos(token_decimals as nat);
    }
    let unsold_presale_tokens_raw = presale_wallet_balance.saturating_sub(presale.total_sold);
    let transfer = if unsold_presale_tokens_raw > 0 {
        Some(
            LiquidityTransfer {
                from: presale.presale_wallet,
                to: liquidity_wallet,
                amount_raw: unsold_presale_tokens_raw,
                authority_bump: presale.bump,
            },
        )
    } else {
        None
    };
    presale.pool_created = true;
    Ok(
        FinalizeOutcome {
            transfer,
            event: FinalizePresaleEvent {
                admin: caller,
                unsold_presale_tokens: unsold_presale_tokens_raw / scale,
            },
        },
    )
}

} // verus!
