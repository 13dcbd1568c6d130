//! Billing arithmetic: saturating products and sums in stroops, and the
//! volume price schedule of a service.
use crate::error::EscrowError;
use crate::types::PriceTier;
use vstd::prelude::*;

verus! {

/// `x` clamped into the `i128` range.
pub open spec fn clamp_i128(x: int) -> i128 {
    if x > i128::MAX {
        i128::MAX
    } else if x < i128::MIN {
        i128::MIN
    } else {
        x as i128
    }
}

/// `a + b`, saturating at the `i128` bounds.
pub fn saturating_add_i128(a: i128, b: i128) -> (r: i128)
    ensures
        r == clamp_i128(a + b),
{
    match a.checked_add(b) {
        Some(s) => s,
        None => if b > 0 {
            i128::MAX
        } else {
            i128::MIN
        },
    }
}

/// `a - b` for non-negative `a` and `b`, never below zero.
pub fn floor_sub_i128(a: i128, b: i128) -> (r: i128)
    requires
        a >= 0,
        b >= 0,
    ensures
        r == (if a >= b { a - b } else { 0 }),
{
    if a >= b {
        a - b
    } else {
        0
    }
}

/// `requests * price`, saturating at the `i128` bounds.
pub fn saturating_mul_requests(requests: u32, price: i128) -> (r: i128)
    ensures
        r == clamp_i128(requests * price),
{
    let q = requests as i128;
    proof {
        if price > 0 {
            assert(q * price >= 0) by (nonlinear_arith)
                requires
                    q >= 0,
                    price > 0,
            ;
        } else {
            assert(q * price <= 0) by (nonlinear_arith)
                requires
                    q >= 0,
                    price <= 0,
            ;
        }
    }
    match q.checked_mul(price) {
        Some(p) => p,
        None => if price > 0 {
            i128::MAX
        } else {
            i128::MIN
        },
    }
}

/// The per-request price of `requests` under a schedule: the price of the
/// last tier whose threshold `requests` reaches, or `base` when none does.
pub open spec fn tier_price(tiers: Seq<PriceTier>, requests: u32, base: i128) -> i128
    decreases tiers.len(),
{
    if tiers.len() == 0 {
        base
    } else if tiers.last().min_requests <= requests {
        tiers.last().price_per_request
    } else {
        tier_price(tiers.drop_last(), requests, base)
    }
}

/// Some tier of the schedule has a negative price.
pub open spec fn has_negative_tier_price(tiers: Seq<PriceTier>) -> bool {
    exists|i: int| 0 <= i < tiers.len() && #[trigger] tiers[i].price_per_request < 0
}

/// The thresholds of the schedule strictly increase.
pub open spec fn thresholds_increase(tiers: Seq<PriceTier>) -> bool {
    forall|i: int, j: int|
        0 <= i < j < tiers.len() ==> #[trigger] tiers[i].min_requests < #[trigger] tiers[j].min_requests
}

/// A schedule that may be stored: no negative price, increasing thresholds.
pub open spec fn tiers_valid(tiers: Seq<PriceTier>) -> bool {
    !has_negative_tier_price(tiers) && thresholds_increase(tiers)
}

/// The per-request price that applies to `requests` accumulated requests.
pub open spec fn effective_price(requests: u32, base: i128, tiers: Option<Seq<PriceTier>>) -> i128 {
    match tiers {
        Some(t) => tier_price(t, requests, base),
        None => base,
    }
}

/// The bill for `requests` accumulated requests: their count times the
/// effective price, saturating at `i128::MAX`.
pub open spec fn bill_for(requests: u32, base: i128, tiers: Option<Seq<PriceTier>>) -> i128 {
    clamp_i128(requests * effective_price(requests, base, tiers))
}

proof fn lemma_tier_price_prefix(tiers: Seq<PriceTier>, i: int, requests: u32, base: i128)
    requires
        0 <= i < tiers.len(),
    ensures
        tier_price(tiers.subrange(0, i + 1), requests, base) == (if tiers[i].min_requests
            <= requests {
            tiers[i].price_per_request
        } else {
            tier_price(tiers.subrange(0, i), requests, base)
        }),
{
    assert(tiers.subrange(0, i + 1).drop_last() =~= tiers.subrange(0, i));
}

/// The per-request price that applies to `requests` accumulated requests.
pub fn effective_price_of(requests: u32, base: i128, tiers: Option<&Vec<PriceTier>>) -> (r: i128)
    ensures
        r == effective_price(
            requests,
            base,
            match tiers {
                Some(t) => Some(t@),
                None => None,
            },
        ),
{
    match tiers {
        None => base,
        Some(t) => {
            let mut price = base;
            let mut i: usize = 0;
            assert(t@.subrange(0, 0).len() == 0);
            while i < t.len()
                invariant
                    i <= t@.len(),
                    price == tier_price(t@.subrange(0, i as int), requests, base),
                decreases t@.len() - i,
            {
                proof {
                    lemma_tier_price_prefix(t@, i as int, requests, base);
                }
                if t[i].min_requests <= requests {
                    price = t[i].price_per_request;
                }
                i = i + 1;
            }
            assert(t@.subrange(0, t@.len() as int) =~= t@);
            price
        },
    }
}

/// The bill for `requests` accumulated requests under a base price and an
/// optional schedule.
pub fn compute_bill(requests: u32, base: i128, tiers: Option<&Vec<PriceTier>>) -> (r: i128)
    ensures
        r == bill_for(
            requests,
            base,
            match tiers {
                Some(t) => Some(t@),
                None => None,
            },
        ),
{
    let price = effective_price_of(requests, base, tiers);
    saturating_mul_requests(requests, price)
}

/// Checks a schedule before it is stored: a negative price is refused with
/// `RequestsMustBePositive`, thresholds that do not strictly increase with
/// `InvalidPriceTiers`.
pub fn validate_tiers(tiers: &Vec<PriceTier>) -> (r: Result<(), EscrowError>)
    ensures
        r == (if has_negative_tier_price(tiers@) {
            Err(EscrowError::RequestsMustBePositive)
        } else if !thresholds_increase(tiers@) {
            Err(EscrowError::InvalidPriceTiers)
        } else {
            Ok(())
        }),
{
    let mut i: usize = 0;
    while i < tiers.len()
        invariant
            i <= tiers@.len(),
            forall|j: int| 0 <= j < i ==> tiers@[j].price_per_request >= 0,
        decreases tiers@.len() - i,
    {
        if tiers[i].price_per_request < 0 {
            assert(tiers@[i as int].price_per_request < 0);
            return Err(EscrowError::RequestsMustBePositive);
        }
        i = i + 1;
    }
    let mut k: usize = 1;
    while k < tiers.len()
        invariant
            1 <= k,
            !has_negative_tier_price(tiers@),
            forall|a: int, b: int|
                0 <= a < b < k && b < tiers@.len() ==> tiers@[a].min_requests
                    < tiers@[b].min_requests,
        decreases tiers@.len() - k,
    {
        if tiers[k].min_requests <= tiers[k - 1].min_requests {
            assert(!thresholds_increase(tiers@)) by {
                assert(tiers@[k - 1].min_requests >= tiers@[k as int].min_requests);
            }
            return Err(EscrowError::InvalidPriceTiers);
        }
        assert forall|a: int, b: int|
            0 <= a < b < k + 1 && b < tiers@.len() implies tiers@[a].min_requests
                < tiers@[b].min_requests by {
            if b == k && a < k - 1 {
                assert(tiers@[a].min_requests < tiers@[k - 1].min_requests);
            }
        }
        k = k + 1;
    }
    assert(thresholds_increase(tiers@)) by {
        assert forall|a: int, b: int| 0 <= a < b < tiers@.len() implies #[trigger] tiers@[a].min_requests
            < #[trigger] tiers@[b].min_requests by {
            if tiers@.len() > 1 {
                assert(b < k);
            }
        }
    }
    Ok(())
}

/// A bill is zero when nothing was used or the price that applies is zero,
/// and never negative when the price that applies is not negative.
pub proof fn lemma_bill_zero_and_sign(requests: u32, base: i128, tiers: Option<Seq<PriceTier>>)
    ensures
        requests == 0 ==> bill_for(requests, base, tiers) == 0,
        effective_price(requests, base, tiers) == 0 ==> bill_for(requests, base, tiers) == 0,
        effective_price(requests, base, tiers) >= 0 ==> bill_for(requests, base, tiers) >= 0,
{
    let p = effective_price(requests, base, tiers);
    assert(p == 0 ==> requests * p == 0) by (nonlinear_arith);
    assert(requests == 0 ==> requests * p == 0) by (nonlinear_arith);
    if p >= 0 {
        assert(requests * p >= 0) by (nonlinear_arith)
            requires
                p >= 0,
        ;
    }
}

/// Under a schedule with no negative price, and a base price that is not
/// negative, the price that applies is not negative either.
pub proof fn lemma_tier_price_nonnegative(tiers: Seq<PriceTier>, requests: u32, base: i128)
    requires
        !has_negative_tier_price(tiers),
        base >= 0,
    ensures
        tier_price(tiers, requests, base) >= 0,
    decreases tiers.len(),
{
    if tiers.len() > 0 {
        assert(tiers.last() == tiers[tiers.len() - 1]);
        assert(!has_negative_tier_price(tiers.drop_last())) by {
            assert forall|i: int| 0 <= i < tiers.drop_last().len() implies #[trigger] tiers.drop_last()[
                i
            ].price_per_request >= 0 by {
                assert(tiers.drop_last()[i] == tiers[i]);
            }
        }
        lemma_tier_price_nonnegative(tiers.drop_last(), requests, base);
    }
}

} // verus!
