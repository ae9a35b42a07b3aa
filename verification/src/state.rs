use vstd::prelude::*;

use crate::ids::AccountId;

verus! {

/// The sale ledger: one record per offering, holding the admin-set
/// configuration and the mutable sale state. Every operation of the library
/// validates its inputs against this record and either applies one
/// transition or returns an error and leaves the record untouched.
///
/// Stages are numbered 0 (not started), 1 (private), 2 (public),
/// 3 (ended); the stage only ever advances.
#[derive(Clone, Copy, Debug, PartialEq, Eq, Structural)]
pub struct Presale {
    /// The configuring authority. Immutable after `initialize`.
    pub admin: AccountId,
    /// Timestamp at which the sale entered its first active stage.
    pub presale_start: i64,
    /// Price of one whole token in USD cents, for stable-asset payments.
    pub usd_price_cents_per_nlov: u64,
    /// Price of one whole token in lamports, for native-coin payments.
    pub sol_price_lamports_per_nlov: u64,
    /// Length of the private stage in seconds, measured from `presale_start`.
    pub private_sale_duration: i64,
    /// Length of the public stage in seconds, following the private stage.
    pub public_sale_duration: i64,
    /// Current stage, 0 through 3.
    pub sale_stage: u8,
    /// Cumulative amount sold, in the token's raw (smallest) units.
    pub total_sold: u64,
    /// Maximum sellable amount in raw units. Immutable after `initialize`.
    pub hardcap_tokens: u64,
    /// One-shot flag set by finalization.
    pub pool_created: bool,
    /// Address of the custody account holding the sale's token inventory.
    pub presale_wallet: AccountId,
    /// Address that receives the payments.
    pub merchant_wallet: AccountId,
    /// Seed byte of the ledger's own derived signing authority.
    pub bump: u8,
}

impl Presale {
    /// Well-formedness: the stage is one of the four defined stages and the
    /// amount sold never exceeds the hardcap. `initialize` establishes this
    /// and every operation preserves it.
    pub open spec fn wf(self) -> bool {
        &&& self.sale_stage <= 3
        &&& self.total_sold <= self.hardcap_tokens
    }

    /// Whether purchases are accepted in the current stage.
    pub open spec fn is_active(self) -> bool {
        self.sale_stage == 1 || self.sale_stage == 2
    }
}

/// Creates the sale ledger from the admin-supplied configuration. The sale
/// begins not started, with nothing sold and finalization pending; `now` is
/// the host-supplied current timestamp and stands as a placeholder start
/// until the sale actually opens.
pub fn initialize(
    admin: AccountId,
    usd_price_cents_per_nlov: u64,
    sol_price_lamports_per_nlov: u64,
    private_sale_duration_days: i64,
    public_sale_duration_days: i64,
    hardcap_tokens: u64,
    now: i64,
    presale_wallet: AccountId,
    merchant_wallet: AccountId,
    bump: u8,
) -> (presale: Presale)
    requires
        i64::MIN <= private_sale_duration_days * 86400 <= i64::MAX,
        i64::MIN <= public_sale_duration_days * 86400 <= i64::MAX,
    ensures
        presale.wf(),
        presale == (Presale {
            admin,
            presale_start: now,
            usd_price_cents_per_nlov,
            sol_price_lamports_per_nlov,
            private_sale_duration: (private_sale_duration_days * 86400) as i64,
            public_sale_duration: (public_sale_duration_days * 86400) as i64,
            sale_stage: 0u8,
            total_sold: 0u64,
            hardcap_tokens,
            pool_created: false,
            presale_wallet,
            merchant_wallet,
            bump,
        }),
{
    Presale {
        admin,
        presale_start: now,
        usd_price_cents_per_nlov,
        sol_price_lamports_per_nlov,
        private_sale_duration: private_sale_duration_days * 86400,
        public_sale_duration: public_sale_duration_days * 86400,
        sale_stage: 0,
        total_sold: 0,
        hardcap_tokens,
        pool_created: false,
        presale_wallet,
        merchant_wallet,
        bump,
    }
}

} // verus!
