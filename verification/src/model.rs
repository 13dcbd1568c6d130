//! The escrow's state as mathematical values, and what each entrypoint does
//! to it: which error it answers on which state and input, and the state and
//! events it leaves when it succeeds.
use crate::billing::{
    bill_for, clamp_i128, has_negative_tier_price, lemma_bill_zero_and_sign,
    lemma_tier_price_nonnegative, thresholds_increase, tiers_valid,
};
use crate::env::Env;
use crate::error::EscrowError;
use crate::events::Event;
use crate::rate_limit::{exceeds_window, limiter_enabled, sat_add_u32, window_after};
use crate::types::{Address, BillingSummary, ContractConfig, PriceTier, ServiceMetadata, Symbol};
use vstd::prelude::*;

verus! {

/// Every storage slot of the escrow. A key absent from a map is a slot that
/// was never written or was removed; readers then see the slot's default.
#[verifier::ext_equal]
pub struct EscrowView {
    pub admin: Option<Address>,
    pub pending_admin: Option<Address>,
    pub paused: bool,
    pub schema_version: u32,
    pub allowlist_enabled: bool,
    pub require_registration: bool,
    pub max_per_call: u32,
    pub min_per_call: u32,
    pub max_per_window: u32,
    pub window_seconds: u64,
    pub min_price: i128,
    pub max_price: i128,
    pub total_requests: u64,
    pub total_settled: i128,
    pub usage: Map<(Address, Seq<char>), u32>,
    pub prices: Map<Seq<char>, i128>,
    pub tiers: Map<Seq<char>, Seq<PriceTier>>,
    pub registered: Map<Seq<char>, bool>,
    pub disabled: Map<Seq<char>, bool>,
    pub metadata: Map<Seq<char>, ServiceMetadata>,
    pub allowed: Map<Address, bool>,
    pub blocked: Map<Address, bool>,
    pub credit: Map<Address, i128>,
    pub agent_usage: Map<Address, u32>,
    pub agent_settled: Map<Address, i128>,
    pub last_settlement: Map<(Address, Seq<char>), u64>,
    pub rate_windows: Map<Address, (u64, u32)>,
    pub agent_services: Map<Address, Seq<Symbol>>,
    pub disputes: Map<Address, Seq<Symbol>>,
}

/// The value under `k`, or `d` for an absent slot.
pub open spec fn get_or<K, V>(m: Map<K, V>, k: K, d: V) -> V {
    if m.contains_key(k) {
        m[k]
    } else {
        d
    }
}

/// A boolean slot; absent reads as `false`.
pub open spec fn flag<K>(m: Map<K, bool>, k: K) -> bool {
    m.contains_key(k) && m[k]
}

/// `a + b`, saturating at `u64::MAX`.
pub open spec fn sat_add_u64(a: u64, b: u64) -> u64 {
    if a + b > u64::MAX {
        u64::MAX
    } else {
        (a + b) as u64
    }
}

/// `a - b`, never below zero.
pub open spec fn floor_sub_u32(a: u32, b: u32) -> u32 {
    if a >= b {
        (a - b) as u32
    } else {
        0
    }
}

/// Some symbol of `l` has the name `s`.
pub open spec fn has_symbol(l: Seq<Symbol>, s: Seq<char>) -> bool {
    exists|i: int| 0 <= i < l.len() && #[trigger] l[i]@ == s
}

/// No name occurs twice in `l`.
pub open spec fn symbols_distinct(l: Seq<Symbol>) -> bool {
    forall|i: int, j: int| 0 <= i < j < l.len() ==> #[trigger] l[i]@ != #[trigger] l[j]@
}

/// `l` without the symbols named `s`, in the same order.
pub open spec fn without_symbol(l: Seq<Symbol>, s: Seq<char>) -> Seq<Symbol>
    decreases l.len(),
{
    if l.len() == 0 {
        l
    } else if l.last()@ == s {
        without_symbol(l.drop_last(), s)
    } else {
        without_symbol(l.drop_last(), s).push(l.last())
    }
}

impl EscrowView {
    /// The state of a contract that was deployed and never called.
    pub open spec fn fresh() -> EscrowView {
        EscrowView {
            admin: None,
            pending_admin: None,
            paused: false,
            schema_version: 1,
            allowlist_enabled: false,
            require_registration: false,
            max_per_call: u32::MAX,
            min_per_call: 0,
            max_per_window: 0,
            window_seconds: 0,
            min_price: 0,
            max_price: i128::MAX,
            total_requests: 0,
            total_settled: 0,
            usage: Map::empty(),
            prices: Map::empty(),
            tiers: Map::empty(),
            registered: Map::empty(),
            disabled: Map::empty(),
            metadata: Map::empty(),
            allowed: Map::empty(),
            blocked: Map::empty(),
            credit: Map::empty(),
            agent_usage: Map::empty(),
            agent_settled: Map::empty(),
            last_settlement: Map::empty(),
            rate_windows: Map::empty(),
            agent_services: Map::empty(),
            disputes: Map::empty(),
        }
    }

    /// What the escrow keeps true of its state: the per-call bounds and the
    /// price band are intervals, a pending admin implies an admin, stored
    /// prices, credits and settled sums are not negative, stored schedules are
    /// valid, and per-agent service lists name no service twice.
    pub open spec fn wf(self) -> bool {
        &&& self.min_per_call <= self.max_per_call
        &&& self.min_price <= self.max_price
        &&& self.pending_admin is Some ==> self.admin is Some
        &&& self.total_settled >= 0
        &&& forall|s: Seq<char>| #[trigger] self.prices.contains_key(s) ==> self.prices[s] >= 0
        &&& forall|s: Seq<char>| #[trigger] self.tiers.contains_key(s) ==> tiers_valid(self.tiers[s])
        &&& forall|a: Address| #[trigger] self.credit.contains_key(a) ==> self.credit[a] >= 0
        &&& forall|a: Address| #[trigger]
            self.agent_settled.contains_key(a) ==> self.agent_settled[a] >= 0
        &&& forall|a: Address| #[trigger]
            self.agent_services.contains_key(a) ==> symbols_distinct(self.agent_services[a])
        &&& forall|a: Address| #[trigger]
            self.disputes.contains_key(a) ==> symbols_distinct(self.disputes[a])
    }

    /// Accumulated, unsettled requests of a pair.
    pub open spec fn usage_of(self, a: Address, s: Seq<char>) -> u32 {
        get_or(self.usage, (a, s), 0)
    }

    /// Flat per-request price of a service; an unpriced service costs nothing.
    pub open spec fn price_of(self, s: Seq<char>) -> i128 {
        get_or(self.prices, s, 0)
    }

    /// The price schedule of a service, if one is configured.
    pub open spec fn tiers_of(self, s: Seq<char>) -> Option<Seq<PriceTier>> {
        if self.tiers.contains_key(s) {
            Some(self.tiers[s])
        } else {
            None
        }
    }

    /// What the pair's accumulated usage bills at the service's prices.
    pub open spec fn bill_of(self, a: Address, s: Seq<char>) -> i128 {
        bill_for(self.usage_of(a, s), self.price_of(s), self.tiers_of(s))
    }

    /// The services an agent ever recorded usage for, in first-use order.
    pub open spec fn services_of(self, a: Address) -> Seq<Symbol> {
        get_or(self.agent_services, a, Seq::empty())
    }

    /// The services an agent holds an open dispute for, in opening order.
    pub open spec fn disputes_of(self, a: Address) -> Seq<Symbol> {
        get_or(self.disputes, a, Seq::empty())
    }

    /// The agent holds an open dispute for the service.
    pub open spec fn has_dispute(self, a: Address, s: Seq<char>) -> bool {
        has_symbol(self.disputes_of(a), s)
    }

    /// The agent's stored rate window, if any.
    pub open spec fn rate_window_of(self, a: Address) -> Option<(u64, u32)> {
        if self.rate_windows.contains_key(a) {
            Some(self.rate_windows[a])
        } else {
            None
        }
    }

    /// When the pair was last settled, if ever.
    pub open spec fn last_settlement_of(self, a: Address, s: Seq<char>) -> Option<u64> {
        if self.last_settlement.contains_key((a, s)) {
            Some(self.last_settlement[(a, s)])
        } else {
            None
        }
    }

    /// Every global setting, as one record.
    pub open spec fn config(self) -> ContractConfig {
        ContractConfig {
            paused: self.paused,
            allowlist_enabled: self.allowlist_enabled,
            require_service_registration: self.require_registration,
            max_requests_per_call: self.max_per_call,
            min_requests_per_call: self.min_per_call,
            max_requests_per_window: self.max_per_window,
            window_seconds: self.window_seconds,
            schema_version: self.schema_version,
            admin: self.admin,
        }
    }

    /// The pair's usage, flat price, bill and last settlement, as one record.
    pub open spec fn billing_summary(self, a: Address, s: Seq<char>) -> BillingSummary {
        BillingSummary {
            requests: self.usage_of(a, s),
            price_stroops: self.price_of(s),
            billed: self.bill_of(a, s),
            last_settlement: self.last_settlement_of(a, s),
        }
    }

    /// The refusal of an admin-gated call: not initialized, or the admin did
    /// not authorize it.
    pub open spec fn admin_gate(self, env: Env) -> Option<EscrowError> {
        match self.admin {
            None => Some(EscrowError::NotInitialized),
            Some(a) => if env.authorizes(a) {
                None
            } else {
                Some(EscrowError::MissingAuth(a))
            },
        }
    }

    /// The refusal of an admin-gated call that honours the pause gate; the
    /// pause gate comes first.
    pub open spec fn paused_admin_gate(self, env: Env) -> Option<EscrowError> {
        if self.paused {
            Some(EscrowError::ContractPaused)
        } else {
            self.admin_gate(env)
        }
    }

    // ── usage ──────────────────────────────────────────────────────────────
    /// The pair's total after recording `requests` more, saturating.
    pub open spec fn recorded_total(self, a: Address, s: Seq<char>, requests: u32) -> u32 {
        sat_add_u32(self.usage_of(a, s), requests)
    }

    /// The agent holds prepaid credit that cannot cover the bill of the pair's
    /// total after recording.
    pub open spec fn credit_shortfall(self, a: Address, s: Seq<char>, requests: u32) -> bool {
        self.credit.contains_key(a) && bill_for(
            self.recorded_total(a, s, requests),
            self.price_of(s),
            self.tiers_of(s),
        ) > self.credit[a]
    }

    /// The refusal of `record_usage`, checked in this order.
    pub open spec fn record_usage_check(self, env: Env, a: Address, s: Seq<char>, requests: u32) -> Option<
        EscrowError,
    > {
        if !env.authorizes(a) {
            Some(EscrowError::MissingAuth(a))
        } else if self.paused {
            Some(EscrowError::ContractPaused)
        } else if requests == 0 {
            Some(EscrowError::RequestsMustBePositive)
        } else if requests > self.max_per_call {
            Some(EscrowError::RequestsExceedsMaxPerCall)
        } else if requests < self.min_per_call {
            Some(EscrowError::RequestsBelowMinPerCall)
        } else if self.require_registration && !flag(self.registered, s) {
            Some(EscrowError::ServiceNotRegistered)
        } else if flag(self.disabled, s) {
            Some(EscrowError::ServiceDisabled)
        } else if flag(self.blocked, a) {
            Some(EscrowError::AgentBlocked)
        } else if self.allowlist_enabled && !flag(self.allowed, a) {
            Some(EscrowError::AgentNotAllowed)
        } else if exceeds_window(
            self.max_per_window,
            self.window_seconds,
            self.rate_window_of(a),
            env.now(),
            requests,
        ) {
            Some(EscrowError::RateLimitExceeded)
        } else if self.credit_shortfall(a, s, requests) {
            Some(EscrowError::InsufficientCredit)
        } else {
            None
        }
    }

    /// The state after `record_usage` succeeds: the pair's counter, the
    /// agent's and the protocol's lifetime counters grow (saturating), the
    /// rate window advances when the limiter is on, and the service joins the
    /// agent's service list on first use.
    pub open spec fn record_usage_next(self, now: u64, a: Address, svc: Symbol, requests: u32) -> EscrowView {
        let s = svc@;
        EscrowView {
            usage: self.usage.insert((a, s), self.recorded_total(a, s, requests)),
            agent_usage: self.agent_usage.insert(
                a,
                sat_add_u32(get_or(self.agent_usage, a, 0), requests),
            ),
            total_requests: sat_add_u64(self.total_requests, requests as u64),
            rate_windows: if limiter_enabled(self.max_per_window, self.window_seconds) {
                self.rate_windows.insert(
                    a,
                    window_after(self.rate_window_of(a), self.window_seconds, now, requests),
                )
            } else {
                self.rate_windows
            },
            agent_services: if has_symbol(self.services_of(a), s) {
                self.agent_services
            } else {
                self.agent_services.insert(a, self.services_of(a).push(svc))
            },
            ..self
        }
    }

    /// The refusal of `decrement_usage`, checked in this order.
    pub open spec fn decrement_usage_check(self, env: Env, amount: u32) -> Option<EscrowError> {
        if self.paused {
            Some(EscrowError::ContractPaused)
        } else if amount == 0 {
            Some(EscrowError::RequestsMustBePositive)
        } else {
            self.admin_gate(env)
        }
    }

    // ── pricing ────────────────────────────────────────────────────────────
    /// The refusal of `set_service_price`, checked in this order.
    pub open spec fn set_price_check(self, env: Env, s: Seq<char>, price: i128) -> Option<EscrowError> {
        match self.paused_admin_gate(env) {
            Some(e) => Some(e),
            None => if price < 0 {
                Some(EscrowError::RequestsMustBePositive)
            } else if self.require_registration && !flag(self.registered, s) {
                Some(EscrowError::ServiceNotRegistered)
            } else if flag(self.disabled, s) {
                Some(EscrowError::ServiceDisabled)
            } else if price < self.min_price || price > self.max_price {
                Some(EscrowError::PriceOutOfBounds)
            } else {
                None
            },
        }
    }

    /// The refusal of `set_price_tiers`, checked in this order.
    pub open spec fn set_tiers_check(self, env: Env, tiers: Seq<PriceTier>) -> Option<EscrowError> {
        match self.paused_admin_gate(env) {
            Some(e) => Some(e),
            None => if has_negative_tier_price(tiers) {
                Some(EscrowError::RequestsMustBePositive)
            } else if !thresholds_increase(tiers) {
                Some(EscrowError::InvalidPriceTiers)
            } else {
                None
            },
        }
    }

    // ── services ───────────────────────────────────────────────────────────
    /// The refusal of `transfer_service_ownership`, checked in this order.
    pub open spec fn transfer_check(self, env: Env, caller: Address, s: Seq<char>, new_owner: Address) -> Option<
        EscrowError,
    > {
        if self.paused {
            Some(EscrowError::ContractPaused)
        } else if !env.authorizes(caller) {
            Some(EscrowError::MissingAuth(caller))
        } else if !self.metadata.contains_key(s) {
            Some(EscrowError::ServiceMetadataNotFound)
        } else if self.metadata[s].owner != caller && self.admin != Some(caller) {
            Some(EscrowError::NotServiceOwner)
        } else if self.metadata[s].owner == new_owner {
            Some(EscrowError::OwnershipUnchanged)
        } else {
            None
        }
    }

    // ── settlement ─────────────────────────────────────────────────────────
    /// Whether `caller` may settle the service: the admin always may; anyone
    /// else only as the owner named in the service's metadata.
    pub open spec fn settle_permission(self, caller: Address, s: Seq<char>) -> Option<EscrowError> {
        if self.admin == Some(caller) {
            None
        } else if !self.metadata.contains_key(s) {
            Some(EscrowError::ServiceMetadataNotFound)
        } else if self.metadata[s].owner != caller {
            Some(EscrowError::Unauthorized)
        } else {
            None
        }
    }

    /// The refusal of a settlement call before any service is looked at.
    pub open spec fn settle_gate(self, env: Env, caller: Address) -> Option<EscrowError> {
        if self.paused {
            Some(EscrowError::ContractPaused)
        } else if !env.authorizes(caller) {
            Some(EscrowError::MissingAuth(caller))
        } else if self.admin is None {
            Some(EscrowError::NotInitialized)
        } else {
            None
        }
    }

    /// The refusal of `settle`, checked in this order.
    pub open spec fn settle_check(self, env: Env, caller: Address, s: Seq<char>) -> Option<EscrowError> {
        match self.settle_gate(env, caller) {
            Some(e) => Some(e),
            None => self.settle_permission(caller, s),
        }
    }

    /// The agent's prepaid balance after paying `billed`, never below zero.
    pub open spec fn credit_after(self, a: Address, billed: i128) -> i128 {
        if self.credit[a] >= billed {
            (self.credit[a] - billed) as i128
        } else {
            0
        }
    }

    /// The state after settling a pair: usage drains to zero, the settlement
    /// time is stamped, and a positive bill adds to the lifetime settled sums
    /// (saturating) and draws down prepaid credit.
    pub open spec fn settle_next(self, now: u64, a: Address, s: Seq<char>) -> EscrowView {
        let billed = self.bill_of(a, s);
        EscrowView {
            usage: self.usage.insert((a, s), 0),
            last_settlement: self.last_settlement.insert((a, s), now),
            agent_settled: if billed > 0 {
                self.agent_settled.insert(a, clamp_i128(get_or(self.agent_settled, a, 0) + billed))
            } else {
                self.agent_settled
            },
            total_settled: if billed > 0 {
                clamp_i128(self.total_settled + billed)
            } else {
                self.total_settled
            },
            credit: if billed > 0 && self.credit.contains_key(a) {
                self.credit.insert(a, self.credit_after(a, billed))
            } else {
                self.credit
            },
            ..self
        }
    }

    /// The events of settling a pair: `cred_deb` when prepaid credit pays a
    /// positive bill, then `settled`.
    pub open spec fn settle_events(self, a: Address, svc: Symbol) -> Seq<Event> {
        let s = svc@;
        let billed = self.bill_of(a, s);
        let settled = Event::Settled {
            agent: a,
            service_id: svc,
            requests: self.usage_of(a, s),
            billed,
        };
        if billed > 0 && self.credit.contains_key(a) {
            let after = self.credit_after(a, billed);
            seq![Event::CreditDebited { agent: a, debit: (self.credit[a] - after) as i128, balance: after }, settled]
        } else {
            seq![settled]
        }
    }

    /// `settle_all` settles this service of the agent: the caller may settle
    /// it and it holds usage.
    pub open spec fn settles_in_batch(self, caller: Address, a: Address, s: Seq<char>) -> bool {
        self.settle_permission(caller, s) is None && self.usage_of(a, s) > 0
    }

    /// `settle_all` over a list of services, in order: the state after, the
    /// (service, billed) pairs settled, the events, and the billed sum.
    pub open spec fn settle_all_fold(
        self,
        now: u64,
        caller: Address,
        a: Address,
        list: Seq<Symbol>,
    ) -> (EscrowView, Seq<(Symbol, i128)>, Seq<Event>, i128)
        decreases list.len(),
    {
        if list.len() == 0 {
            (self, Seq::empty(), Seq::empty(), 0)
        } else {
            let prev = self.settle_all_fold(now, caller, a, list.drop_last());
            let v = prev.0;
            let svc = list.last();
            if v.settles_in_batch(caller, a, svc@) {
                let billed = v.bill_of(a, svc@);
                (
                    v.settle_next(now, a, svc@),
                    prev.1.push((svc, billed)),
                    prev.2 + v.settle_events(a, svc),
                    clamp_i128(prev.3 + billed),
                )
            } else {
                prev
            }
        }
    }

    // ── disputes ───────────────────────────────────────────────────────────
    /// The state after opening a dispute: the service joins the agent's
    /// dispute list unless a dispute for it is already open.
    pub open spec fn open_dispute_next(self, a: Address, svc: Symbol) -> EscrowView {
        if self.has_dispute(a, svc@) {
            self
        } else {
            EscrowView { disputes: self.disputes.insert(a, self.disputes_of(a).push(svc)), ..self }
        }
    }

    /// The state after resolving a dispute with a refund of up to `refund`
    /// requests: the refund comes off the pair's usage and the dispute closes.
    pub open spec fn resolve_next(self, a: Address, s: Seq<char>, refund: u32) -> EscrowView {
        EscrowView {
            usage: self.usage.insert((a, s), floor_sub_u32(self.usage_of(a, s), refund)),
            disputes: self.disputes.insert(a, without_symbol(self.disputes_of(a), s)),
            ..self
        }
    }

    /// The refund a resolution grants: `refund`, but no more than the usage.
    pub open spec fn refunded(self, a: Address, s: Seq<char>, refund: u32) -> u32 {
        if refund <= self.usage_of(a, s) {
            refund
        } else {
            self.usage_of(a, s)
        }
    }

    /// `refund_batch` over a list of services, in order: each service with an
    /// open dispute has its whole usage refunded and its dispute closed;
    /// the others are skipped.
    pub open spec fn refund_fold(self, a: Address, list: Seq<Symbol>) -> (EscrowView, Seq<Event>)
        decreases list.len(),
    {
        if list.len() == 0 {
            (self, Seq::empty())
        } else {
            let prev = self.refund_fold(a, list.drop_last());
            let v = prev.0;
            let svc = list.last();
            if v.has_dispute(a, svc@) {
                let amount = v.usage_of(a, svc@);
                (
                    v.resolve_next(a, svc@, amount),
                    prev.1.push(
                        Event::DisputeResolved { agent: a, service_id: svc, refunded: amount },
                    ),
                )
            } else {
                prev
            }
        }
    }
}

/// Dropping the symbols named `s` keeps only symbols of `l` not named `s`,
/// and keeps the names distinct.
pub proof fn lemma_without_symbol(l: Seq<Symbol>, s: Seq<char>)
    ensures
        forall|x: Seq<char>| #[trigger]
            has_symbol(without_symbol(l, s), x) ==> has_symbol(l, x) && x != s,
        symbols_distinct(l) ==> symbols_distinct(without_symbol(l, s)),
    decreases l.len(),
{
    if l.len() > 0 {
        let d = l.drop_last();
        lemma_without_symbol(d, s);
        let r = without_symbol(d, s);
        assert forall|x: Seq<char>| #[trigger] has_symbol(without_symbol(l, s), x) implies has_symbol(
            l,
            x,
        ) && x != s by {
            let w = without_symbol(l, s);
            let i = choose|i: int| 0 <= i < w.len() && #[trigger] w[i]@ == x;
            if l.last()@ == s {
                assert(has_symbol(r, x));
                let j = choose|j: int| 0 <= j < d.len() && #[trigger] d[j]@ == x;
                assert(l[j] == d[j]);
            } else if i == w.len() - 1 {
                assert(w[i] == l.last());
                assert(l[l.len() - 1]@ == x);
            } else {
                assert(w[i] == r[i]);
                assert(has_symbol(r, x));
                let j = choose|j: int| 0 <= j < d.len() && #[trigger] d[j]@ == x;
                assert(l[j] == d[j]);
            }
        }
        if symbols_distinct(l) {
            assert(symbols_distinct(d)) by {
                assert forall|i: int, j: int| 0 <= i < j < d.len() implies #[trigger] d[i]@
                    != #[trigger] d[j]@ by {
                    assert(d[i] == l[i] && d[j] == l[j]);
                }
            }
            if l.last()@ != s {
                let w = without_symbol(l, s);
                assert forall|i: int, j: int| 0 <= i < j < w.len() implies #[trigger] w[i]@
                    != #[trigger] w[j]@ by {
                    if j == w.len() - 1 {
                        assert(w[i] == r[i]);
                        if r[i]@ == l.last()@ {
                            assert(has_symbol(r, r[i]@));
                            let k = choose|k: int| 0 <= k < d.len() && #[trigger] d[k]@ == r[i]@;
                            assert(l[k] == d[k]);
                            assert(l[k]@ == l[l.len() - 1]@);
                        }
                    } else {
                        assert(w[i] == r[i] && w[j] == r[j]);
                    }
                }
            }
        }
    }
}

/// With valid prices and schedules, every bill is non-negative.
pub proof fn lemma_bill_nonnegative(v: EscrowView, a: Address, s: Seq<char>)
    requires
        v.wf(),
    ensures
        v.bill_of(a, s) >= 0,
{
    let base = v.price_of(s);
    assert(base >= 0);
    let req = v.usage_of(a, s);
    match v.tiers_of(s) {
        Some(t) => {
            assert(v.tiers.contains_key(s));
            lemma_tier_price_nonnegative(t, req, base);
        },
        None => {},
    }
    lemma_bill_zero_and_sign(req, base, v.tiers_of(s));
}

} // verus!
