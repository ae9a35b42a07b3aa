use vstd::prelude::*;

verus! {

/// Ten to the power `n`: the scale factor between an asset's user-facing
/// units and its raw (smallest) units, for an asset with `n` decimals.
pub open spec fn pow10(n: nat) -> nat
    decreases n,
{
    if n == 0 {
        1
    } else {
        10 * pow10((n - 1) as nat)
    }
}

/// Ten to any power is at least one.
pub proof fn lemma_pow10_pos(n: nat)
    ensures
        pow10(n) >= 1,
    decreases n,
{
    if n > 0 {
        lemma_pow10_pos((n - 1) as nat);
    }
}

/// `pow10` is monotone in the exponent.
pub proof fn lemma_pow10_monotone(a: nat, b: nat)
    requires
        a <= b,
    ensures
        pow10(a) <= pow10(b),
    decreases b,
{
    if a < b {
        lemma_pow10_monotone(a, (b - 1) as nat);
        lemma_pow10_pos((b - 1) as nat);
    }
}

/// The largest power of ten that fits in 64 bits is ten to the nineteenth.
pub proof fn lemma_pow10_19_fits()
    ensures
        pow10(19) == 10_000_000_000_000_000_000,
{
    reveal_with_fuel(pow10, 20);
}

/// Computes ten to the power `decimals` in a 64-bit word, failing closed
/// when the result does not fit.
pub fn pow10_checked(decimals: u8) -> (r: Option<u64>)
    ensures
        r is Some <==> pow10(decimals as nat) <= u64::MAX,
        r is Some ==> r->Some_0 == pow10(decimals as nat),
{
    let mut acc: u64 = 1;
    let mut i: u8 = 0;
    while i < decimals
        invariant
            i <= decimals,
            acc == pow10(i as nat),
        decreases decimals - i,
    {
        match acc.checked_mul(10) {
            Some(next) => {
                acc = next;
                i = i + 1;
            },
            None => {
                proof {
                    assert(pow10((i + 1) as nat) == 10 * pow10(i as nat));
                    lemma_pow10_monotone((i + 1) as nat, decimals as nat);
                }
                return None;
            },
        }
    }
    Some(acc)
}

} // verus!
