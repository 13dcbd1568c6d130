//! Properties of the escrow as a whole, over the state transitions that the
//! entrypoints' contracts name.
use crate::billing::{
    bill_for, clamp_i128, effective_price, has_negative_tier_price, lemma_bill_zero_and_sign,
    tier_price, tiers_valid,
};
use crate::rate_limit::{exceeds_window, limiter_enabled, remaining_in_window};
use crate::types::PriceTier;
use crate::env::Env;
use crate::error::EscrowError;
use crate::model::{
    floor_sub_u32, flag, get_or, has_symbol, lemma_bill_nonnegative, lemma_without_symbol,
    EscrowView,
};
use crate::types::{Address, ServiceMetadata, Symbol, SCHEMA_VERSION_CURRENT, SCHEMA_VERSION_LEGACY};
use vstd::prelude::*;

verus! {

/// Metering cannot be bricked by the per-call bounds: in a consistent state,
/// every positive request count inside `[min, max]` passes both per-call
/// checks of `record_usage`.
pub proof fn law_consistent_bounds_admit_counts_in_range(
    v: EscrowView,
    env: Env,
    agent: Address,
    s: Seq<char>,
    requests: u32,
)
    requires
        v.wf(),
        requests > 0,
        v.min_per_call <= requests <= v.max_per_call,
    ensures
        v.record_usage_check(env, agent, s, requests) != Some(
            EscrowError::RequestsExceedsMaxPerCall,
        ),
        v.record_usage_check(env, agent, s, requests) != Some(
            EscrowError::RequestsBelowMinPerCall,
        ),
{
}

/// A blocked agent can never record usage, whatever the allowlist says.
pub proof fn law_block_beats_allowlist(v: EscrowView, env: Env, agent: Address, s: Seq<char>, requests: u32)
    requires
        flag(v.blocked, agent),
    ensures
        v.record_usage_check(env, agent, s, requests) is Some,
{
}

/// A successful `record_usage` leaves the pair holding exactly the old total
/// plus the new requests (saturating), the agent's lifetime counter grown by
/// them, and every other pair's usage untouched.
pub proof fn law_record_usage_accumulates(
    v: EscrowView,
    now: u64,
    agent: Address,
    svc: Symbol,
    requests: u32,
    other_agent: Address,
    other_service: Seq<char>,
)
    requires
        (other_agent, other_service) != (agent, svc@),
    ensures
        v.record_usage_next(now, agent, svc, requests).usage_of(agent, svc@) == crate::rate_limit::sat_add_u32(
            v.usage_of(agent, svc@),
            requests,
        ),
        get_or(v.record_usage_next(now, agent, svc, requests).agent_usage, agent, 0)
            == crate::rate_limit::sat_add_u32(get_or(v.agent_usage, agent, 0), requests),
        v.record_usage_next(now, agent, svc, requests).usage_of(other_agent, other_service)
            == v.usage_of(other_agent, other_service),
{
}

/// Prepaid accounts stay solvent: when `record_usage` succeeds for an agent
/// with prepaid credit, its balance covers the bill of the pair's new total.
pub proof fn law_prepaid_record_is_covered(
    v: EscrowView,
    env: Env,
    agent: Address,
    svc: Symbol,
    requests: u32,
)
    requires
        v.credit.contains_key(agent),
        v.record_usage_check(env, agent, svc@, requests) is None,
    ensures
        v.record_usage_next(env.now(), agent, svc, requests).bill_of(agent, svc@) <= v.credit[agent],
{
}

/// Settling drains the pair: afterwards its usage is zero, so is what it
/// bills, and the settlement time is stamped.
pub proof fn law_settle_drains_pair(v: EscrowView, now: u64, agent: Address, s: Seq<char>)
    ensures
        v.settle_next(now, agent, s).usage_of(agent, s) == 0,
        v.settle_next(now, agent, s).bill_of(agent, s) == 0,
        v.settle_next(now, agent, s).last_settlement[(agent, s)] == now,
{
    let w = v.settle_next(now, agent, s);
    lemma_bill_zero_and_sign(w.usage_of(agent, s), w.price_of(s), w.tiers_of(s));
}

/// Settlement never rewinds the lifetime counters: requests recorded stay
/// counted, and the settled sums only grow, by exactly a positive bill
/// (saturating) and not at all for a zero bill.
pub proof fn law_settle_keeps_lifetime_counters(v: EscrowView, now: u64, agent: Address, s: Seq<char>)
    requires
        v.wf(),
    ensures
        v.settle_next(now, agent, s).total_requests == v.total_requests,
        v.settle_next(now, agent, s).agent_usage == v.agent_usage,
        v.settle_next(now, agent, s).total_settled >= v.total_settled,
        get_or(v.settle_next(now, agent, s).agent_settled, agent, 0) >= get_or(
            v.agent_settled,
            agent,
            0,
        ),
        v.bill_of(agent, s) == 0 ==> v.settle_next(now, agent, s).total_settled == v.total_settled,
{
    lemma_bill_nonnegative(v, agent, s);
    if v.agent_settled.contains_key(agent) {
        assert(v.agent_settled[agent] >= 0);
    }
}

/// A correction never touches the lifetime counters and never goes below
/// zero.
pub proof fn law_decrement_is_floored(v: EscrowView, agent: Address, s: Seq<char>, amount: u32)
    ensures
        floor_sub_u32(v.usage_of(agent, s), amount) <= v.usage_of(agent, s),
        amount >= v.usage_of(agent, s) ==> floor_sub_u32(v.usage_of(agent, s), amount) == 0,
        (EscrowView {
            usage: v.usage.insert((agent, s), floor_sub_u32(v.usage_of(agent, s), amount)),
            ..v
        }).total_requests == v.total_requests,
        (EscrowView {
            usage: v.usage.insert((agent, s), floor_sub_u32(v.usage_of(agent, s), amount)),
            ..v
        }).agent_usage == v.agent_usage,
{
}

/// Removing a price and setting it to zero read back alike (the service
/// bills nothing), though only the removal frees the slot.
pub proof fn law_price_removal_and_zero_read_alike(v: EscrowView, agent: Address, s: Seq<char>)
    ensures
        (EscrowView { prices: v.prices.remove(s), ..v }).price_of(s) == 0,
        (EscrowView { prices: v.prices.insert(s, 0), ..v }).price_of(s) == 0,
        !(EscrowView { prices: v.prices.remove(s), ..v }).prices.contains_key(s),
        (EscrowView { prices: v.prices.insert(s, 0), ..v }).prices.contains_key(s),
        v.tiers_of(s) is None ==> (EscrowView { prices: v.prices.remove(s), ..v }).bill_of(agent, s)
            == 0,
        v.tiers_of(s) is None ==> (EscrowView { prices: v.prices.insert(s, 0), ..v }).bill_of(
            agent,
            s,
        ) == 0,
{
    let u = v.usage_of(agent, s);
    lemma_bill_zero_and_sign(u, 0, None);
}

/// Registering with metadata in one call leaves the same state as
/// registering and then setting the metadata; both calls pass the same gate,
/// and the first leaves that gate as it was.
pub proof fn law_register_with_metadata_is_two_steps(
    v: EscrowView,
    env: Env,
    s: Seq<char>,
    description: String,
    owner: Address,
)
    ensures
        ({
            let after_register = EscrowView { registered: v.registered.insert(s, true), ..v };
            &&& after_register.paused_admin_gate(env) == v.paused_admin_gate(env)
            &&& (EscrowView {
                metadata: after_register.metadata.insert(s, ServiceMetadata { description, owner }),
                ..after_register
            }) == (EscrowView {
                registered: v.registered.insert(s, true),
                metadata: v.metadata.insert(s, ServiceMetadata { description, owner }),
                ..v
            })
        }),
{
}

/// Pausing twice is pausing once, and so is unpausing.
pub proof fn law_pause_is_idempotent(v: EscrowView)
    ensures
        (EscrowView { paused: true, ..(EscrowView { paused: true, ..v }) }) == (EscrowView {
            paused: true,
            ..v
        }),
        (EscrowView { paused: false, ..(EscrowView { paused: false, ..v }) }) == (EscrowView {
            paused: false,
            ..v
        }),
{
}

/// Resetting a rate window twice is resetting it once.
pub proof fn law_reset_rate_window_is_idempotent(v: EscrowView, agent: Address)
    ensures
        (EscrowView { rate_windows: v.rate_windows.remove(agent).remove(agent), ..v }) == (
        EscrowView { rate_windows: v.rate_windows.remove(agent), ..v }),
{
    assert(v.rate_windows.remove(agent).remove(agent) =~= v.rate_windows.remove(agent));
}

/// A two-step handover hands the contract over: after the admin proposes
/// `next` (not itself) and `next` accepts, `next` is the admin and nothing is
/// pending.
pub proof fn law_handover_rotates_admin(v: EscrowView, next: Address)
    requires
        v.admin is Some,
        v.admin != Some(next),
    ensures
        ({
            let proposed = EscrowView { pending_admin: Some(next), ..v };
            let accepted = EscrowView { admin: Some(next), pending_admin: None, ..proposed };
            &&& proposed.pending_admin == Some(next)
            &&& accepted.admin == Some(next)
            &&& accepted.pending_admin is None
        }),
{
}

/// A freshly initialized contract is already at the current schema, so the
/// legacy migration refuses it.
pub proof fn law_fresh_init_needs_no_migration(admin: Address)
    ensures
        (EscrowView {
            admin: Some(admin),
            schema_version: SCHEMA_VERSION_CURRENT,
            ..EscrowView::fresh()
        }).schema_version != SCHEMA_VERSION_LEGACY,
{
}

/// Opening a dispute leaves it open; resolving it closes it and refunds at
/// most the pair's usage, which drops by the refund.
pub proof fn law_dispute_open_then_resolve(v: EscrowView, agent: Address, svc: Symbol, refund: u32)
    ensures
        v.open_dispute_next(agent, svc).has_dispute(agent, svc@),
        !v.resolve_next(agent, svc@, refund).has_dispute(agent, svc@),
        v.refunded(agent, svc@, refund) <= v.usage_of(agent, svc@),
        v.resolve_next(agent, svc@, refund).usage_of(agent, svc@) == v.usage_of(agent, svc@)
            - v.refunded(agent, svc@, refund),
{
    if !v.has_dispute(agent, svc@) {
        let l = v.disputes_of(agent).push(svc);
        assert(l[l.len() - 1]@ == svc@);
        assert(v.open_dispute_next(agent, svc).disputes_of(agent) == l);
    }
    lemma_without_symbol(v.disputes_of(agent), svc@);
}

/// A refund batch leaves every listed service without an open dispute.
pub proof fn law_refund_batch_closes_listed_disputes(v: EscrowView, agent: Address, list: Seq<Symbol>, i: int)
    requires
        0 <= i < list.len(),
    ensures
        !v.refund_fold(agent, list).0.has_dispute(agent, list[i]@),
    decreases list.len(),
{
    let d = list.drop_last();
    let prev = v.refund_fold(agent, d);
    let w = prev.0;
    let last = list.last();
    if i < list.len() - 1 {
        assert(d[i] == list[i]);
        law_refund_batch_closes_listed_disputes(v, agent, d, i);
        if w.has_dispute(agent, last@) {
            let after = w.resolve_next(agent, last@, w.usage_of(agent, last@));
            lemma_without_symbol(w.disputes_of(agent), last@);
            if after.has_dispute(agent, list[i]@) {
                assert(has_symbol(
                    crate::model::without_symbol(w.disputes_of(agent), last@),
                    list[i]@,
                ));
            }
        }
    } else {
        if w.has_dispute(agent, last@) {
            lemma_without_symbol(w.disputes_of(agent), last@);
        }
    }
}

/// The configuration snapshot is the separate getters in one read: each of
/// its fields is the setting that the matching getter returns.
pub proof fn law_config_snapshot_matches_getters(v: EscrowView)
    ensures
        v.config().paused == v.paused,
        v.config().allowlist_enabled == v.allowlist_enabled,
        v.config().require_service_registration == v.require_registration,
        v.config().max_requests_per_call == v.max_per_call,
        v.config().min_requests_per_call == v.min_per_call,
        v.config().max_requests_per_window == v.max_per_window,
        v.config().window_seconds == v.window_seconds,
        v.config().schema_version == v.schema_version,
        v.config().admin == v.admin,
{
}

/// The billing snapshot is one coherent read: its usage, price and bill are
/// what the separate reads give on the same state. Without a price schedule
/// the bill is usage times the flat price, saturating; a pair without usage
/// bills nothing.
pub proof fn law_billing_summary_is_coherent(v: EscrowView, agent: Address, s: Seq<char>)
    ensures
        v.billing_summary(agent, s).requests == v.usage_of(agent, s),
        v.billing_summary(agent, s).price_stroops == v.price_of(s),
        v.billing_summary(agent, s).billed == v.bill_of(agent, s),
        v.billing_summary(agent, s).last_settlement == v.last_settlement_of(agent, s),
        v.tiers_of(s) is None ==> v.billing_summary(agent, s).billed == clamp_i128(
            v.usage_of(agent, s) * v.price_of(s),
        ),
        v.usage_of(agent, s) == 0 ==> v.billing_summary(agent, s).billed == 0,
{
    lemma_bill_zero_and_sign(v.usage_of(agent, s), v.price_of(s), v.tiers_of(s));
}

/// Settling a pair keeps the state consistent.
proof fn lemma_settle_next_wf(v: EscrowView, now: u64, agent: Address, s: Seq<char>)
    requires
        v.wf(),
    ensures
        v.settle_next(now, agent, s).wf(),
{
    lemma_bill_nonnegative(v, agent, s);
    let w = v.settle_next(now, agent, s);
    if v.agent_settled.contains_key(agent) {
        assert(v.agent_settled[agent] >= 0);
    }
    assert forall|a: Address| #[trigger] w.credit.contains_key(a) implies w.credit[a] >= 0 by {
        assert(v.credit.contains_key(a));
    }
    assert forall|a: Address| #[trigger] w.agent_settled.contains_key(a) implies w.agent_settled[a]
        >= 0 by {
        if a != agent {
            assert(v.agent_settled.contains_key(a));
        }
    }
}

/// Settling everything never rewinds the lifetime counters either: whatever
/// services the batch walks, the settled sums only grow, every agent's sum
/// included, the request counters stay as they were, and the billed total it
/// hands back is never negative.
pub proof fn law_settle_all_keeps_lifetime_counters(
    v: EscrowView,
    now: u64,
    caller: Address,
    agent: Address,
    list: Seq<Symbol>,
)
    requires
        v.wf(),
    ensures
        v.settle_all_fold(now, caller, agent, list).0.wf(),
        v.settle_all_fold(now, caller, agent, list).0.total_settled >= v.total_settled,
        forall|b: Address|
            get_or(#[trigger] v.settle_all_fold(now, caller, agent, list).0.agent_settled, b, 0)
                >= get_or(v.agent_settled, b, 0),
        v.settle_all_fold(now, caller, agent, list).0.total_requests == v.total_requests,
        v.settle_all_fold(now, caller, agent, list).0.agent_usage == v.agent_usage,
        v.settle_all_fold(now, caller, agent, list).3 >= 0,
    decreases list.len(),
{
    if list.len() > 0 {
        law_settle_all_keeps_lifetime_counters(v, now, caller, agent, list.drop_last());
        let prev = v.settle_all_fold(now, caller, agent, list.drop_last());
        let w = prev.0;
        let svc = list.last();
        if w.settles_in_batch(caller, agent, svc@) {
            lemma_bill_nonnegative(w, agent, svc@);
            lemma_settle_next_wf(w, now, agent, svc@);
            law_settle_keeps_lifetime_counters(w, now, agent, svc@);
            let after = w.settle_next(now, agent, svc@);
            assert forall|b: Address|
                get_or(after.agent_settled, b, 0) >= get_or(v.agent_settled, b, 0) by {
                assert(get_or(prev.0.agent_settled, b, 0) >= get_or(v.agent_settled, b, 0));
                if b != agent {
                    assert(get_or(after.agent_settled, b, 0) == get_or(w.agent_settled, b, 0));
                }
            }
        }
    }
}

/// The tier that prices `requests`: `k` is reached, and no later tier is.
pub open spec fn last_reached_tier(t: Seq<PriceTier>, requests: u32, k: int) -> bool {
    &&& 0 <= k < t.len()
    &&& t[k].min_requests <= requests
    &&& forall|j: int| k < j < t.len() ==> #[trigger] t[j].min_requests > requests
}

proof fn lemma_tier_price_picks_last_reached(t: Seq<PriceTier>, requests: u32, base: i128, k: int)
    requires
        last_reached_tier(t, requests, k),
    ensures
        tier_price(t, requests, base) == t[k].price_per_request,
    decreases t.len(),
{
    if k < t.len() - 1 {
        let d = t.drop_last();
        assert(t[t.len() - 1].min_requests > requests);
        assert forall|j: int| k < j < d.len() implies #[trigger] d[j].min_requests > requests by {
            assert(d[j] == t[j]);
        }
        lemma_tier_price_picks_last_reached(d, requests, base, k);
    }
}

proof fn lemma_tier_price_none_reached(t: Seq<PriceTier>, requests: u32, base: i128)
    requires
        forall|j: int| 0 <= j < t.len() ==> #[trigger] t[j].min_requests > requests,
    ensures
        tier_price(t, requests, base) == base,
    decreases t.len(),
{
    if t.len() > 0 {
        let d = t.drop_last();
        assert(t[t.len() - 1].min_requests > requests);
        assert forall|j: int| 0 <= j < d.len() implies #[trigger] d[j].min_requests > requests by {
            assert(d[j] == t[j]);
        }
        lemma_tier_price_none_reached(d, requests, base);
    }
}

/// Volume pricing: under a schedule, the per-request price is that of the
/// last tier whose threshold the usage reaches, whatever the flat price is;
/// the flat price applies only when no tier is reached, or with no schedule.
/// A pair's bill is its usage times that price, saturating.
pub proof fn law_tier_schedule_sets_the_price(
    t: Seq<PriceTier>,
    requests: u32,
    base: i128,
    k: int,
    v: EscrowView,
    agent: Address,
    s: Seq<char>,
)
    ensures
        last_reached_tier(t, requests, k) ==> effective_price(requests, base, Some(t))
            == t[k].price_per_request,
        last_reached_tier(t, requests, k) ==> bill_for(requests, base, Some(t)) == clamp_i128(
            requests * t[k].price_per_request,
        ),
        (forall|j: int| 0 <= j < t.len() ==> #[trigger] t[j].min_requests > requests)
            ==> effective_price(requests, base, Some(t)) == base,
        effective_price(requests, base, None) == base,
        bill_for(requests, base, None) == clamp_i128(requests * base),
        v.tiers_of(s) == Some(t) && last_reached_tier(t, v.usage_of(agent, s), k) ==> v.bill_of(
            agent,
            s,
        ) == clamp_i128(v.usage_of(agent, s) * t[k].price_per_request),
        v.tiers_of(s) is None ==> v.bill_of(agent, s) == clamp_i128(
            v.usage_of(agent, s) * v.price_of(s),
        ),
{
    if last_reached_tier(t, requests, k) {
        lemma_tier_price_picks_last_reached(t, requests, base, k);
    }
    if forall|j: int| 0 <= j < t.len() ==> #[trigger] t[j].min_requests > requests {
        lemma_tier_price_none_reached(t, requests, base);
    }
    if v.tiers_of(s) == Some(t) && last_reached_tier(t, v.usage_of(agent, s), k) {
        lemma_tier_price_picks_last_reached(t, v.usage_of(agent, s), v.price_of(s), k);
    }
}

/// Settlement feeds the lifetime sums exactly: after settling a pair whose
/// bill is positive, the agent's settled sum and the protocol's are their old
/// values plus the bill (saturating), whether or not the agent holds prepaid
/// credit; prepaid credit drops by the bill, never below zero; a zero bill
/// changes neither sum nor the credit. The pair's usage drains to zero.
pub proof fn law_settle_adds_the_bill_to_the_settled_sums(
    v: EscrowView,
    now: u64,
    agent: Address,
    s: Seq<char>,
    other: Address,
)
    requires
        v.wf(),
    ensures
        v.bill_of(agent, s) > 0 ==> get_or(v.settle_next(now, agent, s).agent_settled, agent, 0)
            == clamp_i128(get_or(v.agent_settled, agent, 0) + v.bill_of(agent, s)),
        v.bill_of(agent, s) > 0 ==> v.settle_next(now, agent, s).total_settled == clamp_i128(
            v.total_settled + v.bill_of(agent, s),
        ),
        v.bill_of(agent, s) == 0 ==> v.settle_next(now, agent, s).total_settled == v.total_settled,
        v.bill_of(agent, s) == 0 ==> get_or(v.settle_next(now, agent, s).agent_settled, agent, 0)
            == get_or(v.agent_settled, agent, 0),
        other != agent ==> get_or(v.settle_next(now, agent, s).agent_settled, other, 0) == get_or(
            v.agent_settled,
            other,
            0,
        ),
        v.credit.contains_key(agent) && v.bill_of(agent, s) > 0 ==> v.settle_next(
            now,
            agent,
            s,
        ).credit[agent] == (if v.credit[agent] >= v.bill_of(agent, s) {
            v.credit[agent] - v.bill_of(agent, s)
        } else {
            0
        }),
        v.bill_of(agent, s) == 0 ==> v.settle_next(now, agent, s).credit == v.credit,
        !v.credit.contains_key(agent) ==> !v.settle_next(now, agent, s).credit.contains_key(agent),
        v.settle_next(now, agent, s).usage_of(agent, s) == 0,
{
    lemma_bill_nonnegative(v, agent, s);
}

/// Prepaid credit refuses a record exactly for lack of cover: `record_usage`
/// answers `InsufficientCredit` only when the agent holds credit and the
/// pair's projected bill after the record (tier-aware) exceeds it, and an
/// agent whose credit covers that bill is never refused for credit.
pub proof fn law_credit_refusal_means_uncovered_bill(
    v: EscrowView,
    env: Env,
    agent: Address,
    svc: Symbol,
    requests: u32,
)
    ensures
        v.record_usage_check(env, agent, svc@, requests) == Some(EscrowError::InsufficientCredit)
            ==> v.credit.contains_key(agent) && v.record_usage_next(
            env.now(),
            agent,
            svc,
            requests,
        ).bill_of(agent, svc@) > v.credit[agent],
        v.credit.contains_key(agent) && v.record_usage_next(env.now(), agent, svc, requests).bill_of(
            agent,
            svc@,
        ) <= v.credit[agent] ==> v.record_usage_check(env, agent, svc@, requests) != Some(
            EscrowError::InsufficientCredit,
        ),
        !v.credit.contains_key(agent) ==> v.record_usage_check(env, agent, svc@, requests) != Some(
            EscrowError::InsufficientCredit,
        ),
{
}

/// What the rate window leaves: with the limiter on, an agent with no window,
/// or whose window has run its length, may send the full cap; inside a window
/// it may send the cap less the window's count, never below zero. A call of
/// that many requests passes the rate check, and, below the largest cap, one
/// more request does not.
pub proof fn law_remaining_in_window_is_what_the_limiter_accepts(
    max_per_window: u32,
    window_seconds: u64,
    w: Option<(u64, u32)>,
    now: u64,
    start: u64,
    c: u32,
)
    ensures
        w is None ==> remaining_in_window(max_per_window, window_seconds, w, now)
            == max_per_window,
        w == Some((start, c)) && now >= start + window_seconds ==> remaining_in_window(
            max_per_window,
            window_seconds,
            w,
            now,
        ) == max_per_window,
        limiter_enabled(max_per_window, window_seconds) && w == Some((start, c)) && now < start
            + window_seconds && now < u64::MAX ==> remaining_in_window(
            max_per_window,
            window_seconds,
            w,
            now,
        ) == (if c >= max_per_window {
            0
        } else {
            max_per_window - c
        }),
        !limiter_enabled(max_per_window, window_seconds) ==> remaining_in_window(
            max_per_window,
            window_seconds,
            w,
            now,
        ) == max_per_window,
        remaining_in_window(max_per_window, window_seconds, w, now) > 0 ==> !exceeds_window(
            max_per_window,
            window_seconds,
            w,
            now,
            remaining_in_window(max_per_window, window_seconds, w, now),
        ),
        limiter_enabled(max_per_window, window_seconds) && max_per_window < u32::MAX
            ==> exceeds_window(
            max_per_window,
            window_seconds,
            w,
            now,
            (remaining_in_window(max_per_window, window_seconds, w, now) + 1) as u32,
        ),
{
}

proof fn lemma_adjacent_increase_is_pairwise(t: Seq<PriceTier>, i: int, j: int)
    requires
        forall|k: int| 0 <= k < t.len() - 1 ==> #[trigger] t[k].min_requests < t[k + 1].min_requests,
        0 <= i < j < t.len(),
    ensures
        t[i].min_requests < t[j].min_requests,
    decreases j - i,
{
    if j > i + 1 {
        lemma_adjacent_increase_is_pairwise(t, i, j - 1);
        assert(t[j - 1].min_requests < t[j].min_requests);
    } else {
        assert(t[i].min_requests < t[i + 1].min_requests);
    }
}

/// A schedule may be stored exactly when no tier has a negative price and
/// each tier's threshold is strictly above the one before it; an admin call
/// with any neighbouring pair out of order (and no negative price) is
/// refused with `InvalidPriceTiers`.
pub proof fn law_schedule_thresholds_strictly_increase(
    t: Seq<PriceTier>,
    v: EscrowView,
    env: Env,
    k: int,
)
    ensures
        tiers_valid(t) <==> ((forall|i: int| 0 <= i < t.len() ==> #[trigger] t[i].price_per_request
            >= 0) && (forall|i: int|
            0 <= i < t.len() - 1 ==> #[trigger] t[i].min_requests < t[i + 1].min_requests)),
        v.paused_admin_gate(env) is None && !has_negative_tier_price(t) && 0 <= k < t.len() - 1
            && t[k].min_requests >= t[k + 1].min_requests ==> v.set_tiers_check(env, t) == Some(
            EscrowError::InvalidPriceTiers,
        ),
{
    if (forall|i: int| 0 <= i < t.len() - 1 ==> #[trigger] t[i].min_requests < t[i
        + 1].min_requests) {
        assert forall|i: int, j: int| 0 <= i < j < t.len() implies #[trigger] t[i].min_requests
            < #[trigger] t[j].min_requests by {
            lemma_adjacent_increase_is_pairwise(t, i, j);
        }
    }
    if tiers_valid(t) {
        assert forall|i: int| 0 <= i < t.len() - 1 implies #[trigger] t[i].min_requests < t[i
            + 1].min_requests by {
            assert(t[i].min_requests < t[i + 1].min_requests);
        }
    }
    if 0 <= k < t.len() - 1 && t[k].min_requests >= t[k + 1].min_requests {
        assert(!(t[k].min_requests < t[k + 1].min_requests));
    }
}

} // verus!
