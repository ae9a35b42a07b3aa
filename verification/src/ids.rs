use vstd::prelude::*;

verus! {

/// A 32-byte account address, held as two 128-bit halves so that equality
/// in contracts is plain field equality. The host runtime converts its own
/// address type to and from this form at the boundary.
#[derive(Clone, Copy, Debug, PartialEq, Eq, Structural)]
pub struct AccountId {
    pub hi: u128,
    pub lo: u128,
}

/// The allow-list of accepted stable-asset mints, supplied by the host as
/// configuration: purchases paid in a stable asset are accepted only when
/// the payment asset's mint address is one of these two.
#[derive(Clone, Copy, Debug, PartialEq, Eq, Structural)]
pub struct StableAssetRegistry {
    pub usdc: AccountId,
    pub usdt: AccountId,
}

impl StableAssetRegistry {
    /// Whether `mint` is an accepted stable-asset address.
    pub open spec fn spec_accepts(self, mint: AccountId) -> bool {
        mint == self.usdc || mint == self.usdt
    }

    /// Membership test against the allow-list.
    pub fn accepts(&self, mint: AccountId) -> (r: bool)
        ensures
            r == self.spec_accepts(mint),
    {
        mint == self.usdc || mint == self.usdt
    }
}

} // verus!
