use vstd::prelude::*;

use crate::errors::PresaleError;
use crate::events::UpdateSalePriceEvent;
use crate::ids::AccountId;
use crate::state::Presale;

verus! {

/// Advances the sale one stage: not started to private, private to public
/// once the private window has elapsed, public to ended once the public
/// window has elapsed as well. Only the admin may advance; the terminal
/// stage rejects every further attempt. `now` is the host-supplied current
/// timestamp; opening the private stage records it as the sale's start.
pub fn set_stage(presale: &mut Presale, caller: AccountId, now: i64) -> (r: Result<
    (),
    PresaleError,
>)
    requires
        old(presale).wf(),
        caller == old(presale).admin && old(presale).sale_stage == 1 ==> i64::MIN <= old(
            presale,
        ).presale_start + old(presale).private_sale_duration <= i64::MAX,
        caller == old(presale).admin && old(presale).sale_stage == 2 ==> i64::MIN <= old(
            presale,
        ).presale_start + old(presale).private_sale_duration <= i64::MAX && i64::MIN <= old(
            presale,
        ).presale_start + old(presale).private_sale_duration + old(
            presale,
        ).public_sale_duration <= i64::MAX,
    ensures
        final(presale).wf(),
        final(presale).sale_stage >= old(presale).sale_stage,
        r is Err ==> *final(presale) == *old(presale),
        r == Err::<(), PresaleError>(PresaleError::Unauthorized) <==> caller != old(presale).admin,
        caller == old(presale).admin && old(presale).sale_stage == 0 ==> r is Ok && *final(presale)
            == (Presale { sale_stage: 1u8, presale_start: now, ..*old(presale) }),
        caller == old(presale).admin && old(presale).sale_stage == 1 ==> if now >= old(
            presale,
        ).presale_start + old(presale).private_sale_duration {
            r is Ok && *final(presale) == (Presale { sale_stage: 2u8, ..*old(presale) })
        } else {
            r == Err::<(), PresaleError>(PresaleError::PrivateSaleNotOver)
        },
        caller == old(presale).admin && old(presale).sale_stage == 2 ==> if now >= old(
            presale,
        ).presale_start + old(presale).private_sale_duration + old(
            presale,
        ).public_sale_duration {
            r is Ok && *final(presale) == (Presale { sale_stage: 3u8, ..*old(presale) })
        } else {
            r == Err::<(), PresaleError>(PresaleError::PublicSaleNotOver)
        },
        caller == old(presale).admin && old(presale).sale_stage == 3 ==> r == Err::<
            (),
            PresaleError,
        >(PresaleError::SaleAlreadyEnded),
{
    if caller != presale.admin {
        return Err(PresaleError::Unauthorized);
    }
    match presale.sale_stage {
        0 => {
            presale.presale_start = now;
            presale.sale_stage = 1;
            Ok(())
        },
        1 => {
            if now >= presale.presale_start + presale.private_sale_duration {
                presale.sale_stage = 2;
                Ok(())
            } else {
                Err(PresaleError::PrivateSaleNotOver)
            }
        },
        2 => {
            if now >= presale.presale_start + presale.private_sale_duration
                + presale.public_sale_duration {
                presale.sale_stage = 3;
                Ok(())
            } else {
                Err(PresaleError::PublicSaleNotOver)
            }
        },
        _ => Err(PresaleError::SaleAlreadyEnded),
    }
}

/// Replaces both stage durations. Only the admin may do so, and only before
/// the sale has ended. The sale's recorded start is left as it is, so a
/// longer duration extends a window that is already running.
pub fn update_sale_period(
    presale: &mut Presale,
    caller: AccountId,
    new_private_sale_duration_days: i64,
    new_public_sale_duration_days: i64,
) -> (r: Result<(), PresaleError>)
    requires
        old(presale).wf(),
        caller == old(presale).admin && old(presale).sale_stage < 3 ==> i64::MIN
            <= new_private_sale_duration_days * 86400 <= i64::MAX && i64::MIN
            <= new_public_sale_duration_days * 86400 <= i64::MAX,
    ensures
        final(presale).wf(),
        final(presale).sale_stage == old(presale).sale_stage,
        r is Err ==> *final(presale) == *old(presale),
        r == Err::<(), PresaleError>(PresaleError::Unauthorized) <==> caller != old(presale).admin,
        r == Err::<(), PresaleError>(PresaleError::SaleAlreadyEnded) <==> caller == old(
            presale,
        ).admin && old(presale).sale_stage >= 3,
        r is Ok <==> caller == old(presale).admin && old(presale).sale_stage < 3,
        r is Ok ==> *final(presale) == (Presale {
            private_sale_duration: (new_private_sale_duration_days * 86400) as i64,
            public_sale_duration: (new_public_sale_duration_days * 86400) as i64,
            ..*old(presale)
        }),
{
    if caller != presale.admin {
        return Err(PresaleError::Unauthorized);
    }
    if presale.sale_stage >= 3 {
        return Err(PresaleError::SaleAlreadyEnded);
    }
    presale.private_sale_duration = new_private_sale_duration_days * 86400;
    presale.public_sale_duration = new_public_sale_duration_days * 86400;
    Ok(())
}

/// Replaces both unit prices atomically. Only the admin may do so, and only
/// while the sale is in a purchasing stage.
pub fn update_sale_price(
    presale: &mut Presale,
    caller: AccountId,
    new_usd_price_cents: u64,
    new_sol_price_lamports: u64,
) -> (r: Result<UpdateSalePriceEvent, PresaleError>)
    requires
        old(presale).wf(),
    ensures
        final(presale).wf(),
        final(presale).sale_stage == old(presale).sale_stage,
        r is Err ==> *final(presale) == *old(presale),
        r == Err::<UpdateSalePriceEvent, PresaleError>(PresaleError::Unauthorized) <==> caller
            != old(presale).admin,
        r == Err::<UpdateSalePriceEvent, PresaleError>(PresaleError::PresaleNotActive) <==> caller
            == old(presale).admin && !old(presale).is_active(),
        r is Ok <==> caller == old(presale).admin && old(presale).is_active(),
        r is Ok ==> *final(presale) == (Presale {
            usd_price_cents_per_nlov: new_usd_price_cents,
            sol_price_lamports_per_nlov: new_sol_price_lamports,
            ..*old(presale)
        }) && r->Ok_0 == (UpdateSalePriceEvent {
            admin: caller,
            new_usd_price_cents,
            new_sol_price_lamports,
            sale_stage: old(presale).sale_stage,
        }),
{
    if caller != presale.admin {
        return Err(PresaleError::Unauthorized);
    }
    if !(presale.sale_stage == 1 || presale.sale_stage == 2) {
        return Err(PresaleError::PresaleNotActive);
    }
    presale.usd_price_cents_per_nlov = new_usd_price_cents;
    presale.sol_price_lamports_per_nlov = new_sol_price_lamports;
    Ok(
        UpdateSalePriceEvent {
            admin: caller,
            new_usd_price_cents,
            new_sol_price_lamports,
            sale_stage: presale.sale_stage,
        },
    )
}

} // verus!
