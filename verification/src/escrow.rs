//! The escrow contract: its storage and its entrypoints.
//!
//! Every entrypoint takes the host (`Env`) for the ledger clock, the call's
//! authorizations and the event log. A refused call returns the error and
//! leaves the state and the event log untouched.
use crate::billing::{
    clamp_i128, compute_bill, floor_sub_i128, saturating_add_i128, validate_tiers,
};
use crate::env::Env;
use crate::error::EscrowError;
use crate::events::{ConfigName, ConfigValue, Event};
use crate::model::{
    flag, floor_sub_u32, get_or, has_symbol, lemma_bill_nonnegative, lemma_without_symbol,
    without_symbol, EscrowView,
};
use crate::rate_limit::{next_window, remaining_capacity, remaining_in_window};
use crate::table::{Table, TableKey};
use crate::types::{
    duplicate_symbols, duplicate_tiers, Address, BillingSummary, ContractConfig, PriceTier,
    ServiceMetadata, Symbol, UsageRecord, CONTRACT_VERSION, MAX_BATCH_READ, SCHEMA_VERSION_CURRENT,
    SCHEMA_VERSION_LEGACY,
};
use vstd::prelude::*;

verus! {

/// The views of a table of symbol lists.
pub open spec fn list_views(m: Map<Address, Vec<Symbol>>) -> Map<Address, Seq<Symbol>> {
    m.map_values(|v: Vec<Symbol>| v@)
}

/// The views of a table of price schedules.
pub open spec fn tier_views(m: Map<Seq<char>, Vec<PriceTier>>) -> Map<Seq<char>, Seq<PriceTier>> {
    m.map_values(|v: Vec<PriceTier>| v@)
}

proof fn lemma_list_views_insert(m: Map<Address, Vec<Symbol>>, k: Address, v: Vec<Symbol>)
    ensures
        list_views(m.insert(k, v)) == list_views(m).insert(k, v@),
{
    assert(list_views(m.insert(k, v)) =~= list_views(m).insert(k, v@));
}

proof fn lemma_tier_views_insert(m: Map<Seq<char>, Vec<PriceTier>>, k: Seq<char>, v: Vec<PriceTier>)
    ensures
        tier_views(m.insert(k, v)) == tier_views(m).insert(k, v@),
{
    assert(tier_views(m.insert(k, v)) =~= tier_views(m).insert(k, v@));
}

proof fn lemma_tier_views_remove(m: Map<Seq<char>, Vec<PriceTier>>, k: Seq<char>)
    ensures
        tier_views(m.remove(k)) == tier_views(m).remove(k),
{
    assert(tier_views(m.remove(k)) =~= tier_views(m).remove(k));
}

/// Whether some symbol of `l` is named like `s`.
pub fn list_has_symbol(l: &Vec<Symbol>, s: &Symbol) -> (b: bool)
    ensures
        b == has_symbol(l@, s@),
{
    let mut i: usize = 0;
    while i < l.len()
        invariant
            i <= l@.len(),
            forall|j: int| 0 <= j < i ==> l@[j]@ != s@,
        decreases l@.len() - i,
    {
        if l[i].same_key(s) {
            assert(l@[i as int]@ == s@);
            return true;
        }
        i = i + 1;
    }
    false
}

/// `l` without the symbols named `s`, in the same order.
pub fn list_without_symbol(l: &Vec<Symbol>, s: &Symbol) -> (r: Vec<Symbol>)
    ensures
        r@ == without_symbol(l@, s@),
{
    let mut r: Vec<Symbol> = Vec::new();
    let mut i: usize = 0;
    while i < l.len()
        invariant
            i <= l@.len(),
            r@ == without_symbol(l@.subrange(0, i as int), s@),
        decreases l@.len() - i,
    {
        assert(l@.subrange(0, i + 1).drop_last() =~= l@.subrange(0, i as int));
        if !l[i].same_key(s) {
            r.push(l[i].duplicate());
        }
        i = i + 1;
    }
    assert(l@.subrange(0, l@.len() as int) =~= l@);
    r
}

/// The escrow's storage.
pub struct Escrow {
    admin: Option<Address>,
    pending_admin: Option<Address>,
    paused: bool,
    schema_version: u32,
    allowlist_enabled: bool,
    require_registration: bool,
    max_per_call: u32,
    min_per_call: u32,
    max_per_window: u32,
    window_seconds: u64,
    min_price: i128,
    max_price: i128,
    total_requests: u64,
    total_settled: i128,
    usage: Table<(Address, Symbol), u32>,
    prices: Table<Symbol, i128>,
    tiers: Table<Symbol, Vec<PriceTier>>,
    registered: Table<Symbol, bool>,
    disabled: Table<Symbol, bool>,
    metadata: Table<Symbol, ServiceMetadata>,
    allowed: Table<Address, bool>,
    blocked: Table<Address, bool>,
    credit: Table<Address, i128>,
    agent_usage: Table<Address, u32>,
    agent_settled: Table<Address, i128>,
    last_settlement: Table<(Address, Symbol), u64>,
    rate_windows: Table<Address, (u64, u32)>,
    agent_services: Table<Address, Vec<Symbol>>,
    disputes: Table<Address, Vec<Symbol>>,
}

impl View for Escrow {
    type V = EscrowView;

    closed spec fn view(&self) -> EscrowView {
        EscrowView {
            admin: self.admin,
            pending_admin: self.pending_admin,
            paused: self.paused,
            schema_version: self.schema_version,
            allowlist_enabled: self.allowlist_enabled,
            require_registration: self.require_registration,
            max_per_call: self.max_per_call,
            min_per_call: self.min_per_call,
            max_per_window: self.max_per_window,
            window_seconds: self.window_seconds,
            min_price: self.min_price,
            max_price: self.max_price,
            total_requests: self.total_requests,
            total_settled: self.total_settled,
            usage: self.usage@,
            prices: self.prices@,
            tiers: tier_views(self.tiers@),
            registered: self.registered@,
            disabled: self.disabled@,
            metadata: self.metadata@,
            allowed: self.allowed@,
            blocked: self.blocked@,
            credit: self.credit@,
            agent_usage: self.agent_usage@,
            agent_settled: self.agent_settled@,
            last_settlement: self.last_settlement@,
            rate_windows: self.rate_windows@,
            agent_services: list_views(self.agent_services@),
            disputes: list_views(self.disputes@),
        }
    }
}

impl Escrow {
    /// The storage is consistent: its tables are well formed and its state
    /// keeps the escrow's invariant.
    pub closed spec fn wf(&self) -> bool {
        &&& self.usage.wf()
        &&& self.prices.wf()
        &&& self.tiers.wf()
        &&& self.registered.wf()
        &&& self.disabled.wf()
        &&& self.metadata.wf()
        &&& self.allowed.wf()
        &&& self.blocked.wf()
        &&& self.credit.wf()
        &&& self.agent_usage.wf()
        &&& self.agent_settled.wf()
        &&& self.last_settlement.wf()
        &&& self.rate_windows.wf()
        &&& self.agent_services.wf()
        &&& self.disputes.wf()
        &&& self@.wf()
    }

    /// A deployed contract that no one has called yet.
    pub fn new() -> (e: Escrow)
        ensures
            e.wf(),
            e@ == EscrowView::fresh(),
    {
        let e = Escrow {
            admin: None,
            pending_admin: None,
            paused: false,
            schema_version: SCHEMA_VERSION_LEGACY,
            allowlist_enabled: false,
            require_registration: false,
            max_per_call: u32::MAX,
            min_per_call: 0,
            max_per_window: 0,
            window_seconds: 0,
            min_price: 0,
            max_price: i128::MAX,
            total_requests: 0,
            total_settled: 0,
            usage: Table::new(),
            prices: Table::new(),
            tiers: Table::new(),
            registered: Table::new(),
            disabled: Table::new(),
            metadata: Table::new(),
            allowed: Table::new(),
            blocked: Table::new(),
            credit: Table::new(),
            agent_usage: Table::new(),
            agent_settled: Table::new(),
            last_settlement: Table::new(),
            rate_windows: Table::new(),
            agent_services: Table::new(),
            disputes: Table::new(),
        };
        assert(tier_views(e.tiers@) =~= Map::empty());
        assert(list_views(e.agent_services@) =~= Map::empty());
        assert(list_views(e.disputes@) =~= Map::empty());
        assert(e@ =~= EscrowView::fresh());
        e
    }

    // ── gates ──────────────────────────────────────────────────────────────
    fn admin_check(&self, env: &Env) -> (r: Option<EscrowError>)
        ensures
            r == self@.admin_gate(*env),
    {
        match self.admin {
            None => Some(EscrowError::NotInitialized),
            Some(a) => match env.require_auth(a) {
                Ok(()) => None,
                Err(e) => Some(e),
            },
        }
    }

    fn paused_admin_check(&self, env: &Env) -> (r: Option<EscrowError>)
        ensures
            r == self@.paused_admin_gate(*env),
    {
        if self.paused {
            Some(EscrowError::ContractPaused)
        } else {
            self.admin_check(env)
        }
    }

    // ── reads ──────────────────────────────────────────────────────────────
    /// The version of the contract's code.
    pub fn version(&self) -> (v: u32)
        ensures
            v == CONTRACT_VERSION,
    {
        CONTRACT_VERSION
    }

    /// The current admin; `None` before `init`.
    pub fn get_admin(&self) -> (r: Option<Address>)
        ensures
            r == self@.admin,
    {
        self.admin
    }

    /// The accumulated, unsettled requests of the pair; `0` for an unknown pair.
    pub fn get_usage(&self, agent: Address, service_id: &Symbol) -> (r: u32)
        requires
            self.wf(),
        ensures
            r == self@.usage_of(agent, service_id@),
    {
        self.usage.get_or(&(agent, service_id.duplicate()), 0)
    }

    /// The flat per-request price of a service; `0` when unpriced.
    pub fn get_service_price(&self, service_id: &Symbol) -> (r: i128)
        requires
            self.wf(),
        ensures
            r == self@.price_of(service_id@),
    {
        self.prices.get_or(service_id, 0)
    }

    fn tiers_ref(&self, service_id: &Symbol) -> (r: Option<&Vec<PriceTier>>)
        requires
            self.wf(),
        ensures
            match r {
                Some(t) => self@.tiers_of(service_id@) == Some(t@),
                None => self@.tiers_of(service_id@) is None,
            },
    {
        self.tiers.get(service_id)
    }

    /// What the pair's accumulated usage bills now: usage times the price that
    /// applies (the schedule's, when one is configured), saturating.
    pub fn compute_billing(&self, agent: Address, service_id: &Symbol) -> (r: i128)
        requires
            self.wf(),
        ensures
            r == self@.bill_of(agent, service_id@),
    {
        let requests = self.get_usage(agent, service_id);
        let price = self.get_service_price(service_id);
        let tiers = self.tiers_ref(service_id);
        compute_bill(requests, price, tiers)
    }

    fn rate_window_value(&self, agent: Address) -> (r: Option<(u64, u32)>)
        requires
            self.wf(),
        ensures
            r == self@.rate_window_of(agent),
    {
        match self.rate_windows.get(&agent) {
            Some(w) => Some(*w),
            None => None,
        }
    }

    fn services_list(&self, agent: Address) -> (r: Vec<Symbol>)
        requires
            self.wf(),
        ensures
            r@ == self@.services_of(agent),
    {
        match self.agent_services.get(&agent) {
            Some(l) => duplicate_symbols(l),
            None => Vec::new(),
        }
    }

    fn disputes_list(&self, agent: Address) -> (r: Vec<Symbol>)
        requires
            self.wf(),
        ensures
            r@ == self@.disputes_of(agent),
    {
        match self.disputes.get(&agent) {
            Some(l) => duplicate_symbols(l),
            None => Vec::new(),
        }
    }

    // ── init ───────────────────────────────────────────────────────────────
    /// Initializes the contract with its admin, who must authorize the call,
    /// and stamps the current storage schema version.
    pub fn init(&mut self, env: &mut Env, admin: Address) -> (r: Result<(), EscrowError>)
        requires
            old(self).wf(),
        ensures
            final(self).wf(),
            r == (if old(self)@.admin is Some {
                Err(EscrowError::AlreadyInitialized)
            } else if !old(env).authorizes(admin) {
                Err(EscrowError::MissingAuth(admin))
            } else {
                Ok(())
            }),
            r is Err ==> final(self)@ == old(self)@,
            r is Ok ==> final(self)@ == (EscrowView {
                admin: Some(admin),
                schema_version: SCHEMA_VERSION_CURRENT,
                ..old(self)@
            }),
            *final(env) == *old(env),
    {
        if self.admin.is_some() {
            return Err(EscrowError::AlreadyInitialized);
        }
        match env.require_auth(admin) {
            Err(e) => { return Err(e); },
            Ok(()) => {},
        }
        self.admin = Some(admin);
        self.schema_version = SCHEMA_VERSION_CURRENT;
        Ok(())
    }

    // ── usage ──────────────────────────────────────────────────────────────
    /// Records `requests` more requests of `service_id` by `agent`, who must
    /// authorize the call, and hands back the pair's new accumulated total.
    ///
    /// Refusals, in order: the agent's missing authorization, the pause gate,
    /// a zero count, the per-call ceiling and floor, strict registration, a
    /// disabled service, a blocked agent, the allowlist, the rate window, and
    /// prepaid credit that cannot cover the bill of the new total.
    pub fn record_usage(
        &mut self,
        env: &mut Env,
        agent: Address,
        service_id: Symbol,
        requests: u32,
    ) -> (r: Result<UsageRecord, EscrowError>)
        requires
            old(self).wf(),
        ensures
            final(self).wf(),
            match old(self)@.record_usage_check(*old(env), agent, service_id@, requests) {
                Some(e) => {
                    &&& r == Err::<UsageRecord, EscrowError>(e)
                    &&& final(self)@ == old(self)@
                    &&& *final(env) == *old(env)
                },
                None => {
                    let total = old(self)@.recorded_total(agent, service_id@, requests);
                    &&& r == Ok::<UsageRecord, EscrowError>(
                        UsageRecord { agent, service_id, requests: total },
                    )
                    &&& final(self)@ == old(self)@.record_usage_next(
                        old(env).now(),
                        agent,
                        service_id,
                        requests,
                    )
                    &&& final(env).publishes(
                        *old(env),
                        seq![Event::Usage { agent, service_id, requests, total }],
                    )
                },
            },
    {
        let ghost v = self@;
        match env.require_auth(agent) {
            Err(e) => { return Err(e); },
            Ok(()) => {},
        }
        if self.paused {
            return Err(EscrowError::ContractPaused);
        }
        if requests == 0 {
            return Err(EscrowError::RequestsMustBePositive);
        }
        if requests > self.max_per_call {
            return Err(EscrowError::RequestsExceedsMaxPerCall);
        }
        if requests < self.min_per_call {
            return Err(EscrowError::RequestsBelowMinPerCall);
        }
        if self.require_registration && !self.registered.get_or(&service_id, false) {
            return Err(EscrowError::ServiceNotRegistered);
        }
        if self.disabled.get_or(&service_id, false) {
            return Err(EscrowError::ServiceDisabled);
        }
        if self.blocked.get_or(&agent, false) {
            return Err(EscrowError::AgentBlocked);
        }
        if self.allowlist_enabled && !self.allowed.get_or(&agent, false) {
            return Err(EscrowError::AgentNotAllowed);
        }
        let now = env.timestamp();
        let limiter_on = self.max_per_window > 0 && self.window_seconds > 0;
        let window = next_window(self.rate_window_value(agent), self.window_seconds, now, requests);
        if limiter_on && window.1 > self.max_per_window {
            return Err(EscrowError::RateLimitExceeded);
        }
        let total = self.get_usage(agent, &service_id).saturating_add(requests);
        match self.credit.get(&agent) {
            Some(balance) => {
                let projected = compute_bill(
                    total,
                    self.get_service_price(&service_id),
                    self.tiers_ref(&service_id),
                );
                if projected > *balance {
                    return Err(EscrowError::InsufficientCredit);
                }
            },
            None => {},
        }
        // Every check passed: write the new state.
        self.usage.insert((agent, service_id.duplicate()), total);
        let agent_total = self.agent_usage.get_or(&agent, 0).saturating_add(requests);
        self.agent_usage.insert(agent, agent_total);
        self.total_requests = self.total_requests.saturating_add(requests as u64);
        if limiter_on {
            self.rate_windows.insert(agent, window);
        }
        let list = self.services_list(agent);
        if !list_has_symbol(&list, &service_id) {
            let mut grown = list;
            grown.push(service_id.duplicate());
            proof {
                lemma_list_views_insert(self.agent_services@, agent, grown);
            }
            self.agent_services.insert(agent, grown);
        }
        proof {
            assert(self@ =~= v.record_usage_next(now, agent, service_id, requests));
        }
        env.publish(Event::Usage { agent, service_id: service_id.duplicate(), requests, total });
        Ok(UsageRecord { agent, service_id, requests: total })
    }

    /// Subtracts `amount` from the pair's usage, never below zero, and hands
    /// back the new total. A correction: the lifetime counters stay as they
    /// are. Refusals, in order: the pause gate, a zero amount, the admin gate.
    pub fn decrement_usage(
        &mut self,
        env: &mut Env,
        agent: Address,
        service_id: Symbol,
        amount: u32,
    ) -> (r: Result<u32, EscrowError>)
        requires
            old(self).wf(),
        ensures
            final(self).wf(),
            match old(self)@.decrement_usage_check(*old(env), amount) {
                Some(e) => {
                    &&& r == Err::<u32, EscrowError>(e)
                    &&& final(self)@ == old(self)@
                    &&& *final(env) == *old(env)
                },
                None => {
                    let total = floor_sub_u32(old(self)@.usage_of(agent, service_id@), amount);
                    &&& r == Ok::<u32, EscrowError>(total)
                    &&& final(self)@ == (EscrowView {
                        usage: old(self)@.usage.insert((agent, service_id@), total),
                        ..old(self)@
                    })
                    &&& final(env).publishes(
                        *old(env),
                        seq![Event::UsageDecremented { agent, service_id, amount, total }],
                    )
                },
            },
    {
        if self.paused {
            return Err(EscrowError::ContractPaused);
        }
        if amount == 0 {
            return Err(EscrowError::RequestsMustBePositive);
        }
        match self.admin_check(env) {
            Some(e) => { return Err(e); },
            None => {},
        }
        let ghost v = self@;
        let total = self.get_usage(agent, &service_id).saturating_sub(amount);
        self.usage.insert((agent, service_id.duplicate()), total);
        proof {
            assert(self@ =~= EscrowView { usage: v.usage.insert((agent, service_id@), total), ..v });
        }
        env.publish(Event::UsageDecremented { agent, service_id, amount, total });
        Ok(total)
    }

    /// The usage of each pair, in the order given; at most `MAX_BATCH_READ`
    /// pairs per call, else `BatchTooLarge`.
    pub fn get_usage_batch(&self, pairs: &Vec<(Address, Symbol)>) -> (r: Result<
        Vec<u32>,
        EscrowError,
    >)
        requires
            self.wf(),
        ensures
            pairs@.len() > MAX_BATCH_READ ==> r == Err::<Vec<u32>, EscrowError>(
                EscrowError::BatchTooLarge,
            ),
            pairs@.len() <= MAX_BATCH_READ ==> (r matches Ok(out) && out@ == pairs@.map_values(
                |p: (Address, Symbol)| self@.usage_of(p.0, p.1@),
            )),
    {
        if pairs.len() > MAX_BATCH_READ as usize {
            return Err(EscrowError::BatchTooLarge);
        }
        let mut out: Vec<u32> = Vec::new();
        let mut i: usize = 0;
        while i < pairs.len()
            invariant
                self.wf(),
                i <= pairs@.len(),
                out@ == pairs@.subrange(0, i as int).map_values(
                    |p: (Address, Symbol)| self@.usage_of(p.0, p.1@),
                ),
            decreases pairs@.len() - i,
        {
            let u = self.get_usage(pairs[i].0, &pairs[i].1);
            out.push(u);
            i = i + 1;
            assert(out@ =~= pairs@.subrange(0, i as int).map_values(
                |p: (Address, Symbol)| self@.usage_of(p.0, p.1@),
            ));
        }
        assert(pairs@.subrange(0, pairs@.len() as int) =~= pairs@);
        Ok(out)
    }

    /// The agent's lifetime requests across all services (saturating); not
    /// reduced by settlement or correction.
    pub fn get_total_usage_by_agent(&self, agent: Address) -> (r: u32)
        requires
            self.wf(),
        ensures
            r == get_or(self@.agent_usage, agent, 0),
    {
        self.agent_usage.get_or(&agent, 0)
    }

    /// The protocol's lifetime requests (saturating).
    pub fn get_total_requests_all_time(&self) -> (r: u64)
        ensures
            r == self@.total_requests,
    {
        self.total_requests
    }

    /// The agent's lifetime settled amount in stroops.
    pub fn get_total_settled_by_agent(&self, agent: Address) -> (r: i128)
        requires
            self.wf(),
        ensures
            r == get_or(self@.agent_settled, agent, 0),
    {
        self.agent_settled.get_or(&agent, 0)
    }

    /// The protocol's lifetime settled amount in stroops.
    pub fn get_total_settled_all_time(&self) -> (r: i128)
        ensures
            r == self@.total_settled,
    {
        self.total_settled
    }

    /// When the pair was last settled; `None` if never.
    pub fn get_last_settlement(&self, agent: Address, service_id: &Symbol) -> (r: Option<u64>)
        requires
            self.wf(),
        ensures
            r == self@.last_settlement_of(agent, service_id@),
    {
        match self.last_settlement.get(&(agent, service_id.duplicate())) {
            Some(t) => Some(*t),
            None => None,
        }
    }

    // ── pricing ────────────────────────────────────────────────────────────
    /// Sets a service's flat per-request price. Refusals, in order: the pause
    /// gate, the admin gate, a negative price, strict registration, a
    /// disabled service, and a price outside the configured band.
    pub fn set_service_price(&mut self, env: &mut Env, service_id: Symbol, price: i128) -> (r: Result<
        (),
        EscrowError,
    >)
        requires
            old(self).wf(),
        ensures
            final(self).wf(),
            match old(self)@.set_price_check(*old(env), service_id@, price) {
                Some(e) => {
                    &&& r == Err::<(), EscrowError>(e)
                    &&& final(self)@ == old(self)@
                    &&& *final(env) == *old(env)
                },
                None => {
                    &&& r == Ok::<(), EscrowError>(())
                    &&& final(self)@ == (EscrowView {
                        prices: old(self)@.prices.insert(service_id@, price),
                        ..old(self)@
                    })
                    &&& final(env).publishes(*old(env), seq![Event::PriceSet { service_id, price }])
                },
            },
    {
        match self.paused_admin_check(env) {
            Some(e) => { return Err(e); },
            None => {},
        }
        if price < 0 {
            return Err(EscrowError::RequestsMustBePositive);
        }
        if self.require_registration && !self.registered.get_or(&service_id, false) {
            return Err(EscrowError::ServiceNotRegistered);
        }
        if self.disabled.get_or(&service_id, false) {
            return Err(EscrowError::ServiceDisabled);
        }
        if price < self.min_price || price > self.max_price {
            return Err(EscrowError::PriceOutOfBounds);
        }
        let ghost v = self@;
        self.prices.insert(service_id.duplicate(), price);
        proof {
            assert(self@ =~= EscrowView { prices: v.prices.insert(service_id@, price), ..v });
        }
        env.publish(Event::PriceSet { service_id, price });
        Ok(())
    }

    /// Removes a service's price slot; the service then reads as unpriced.
    /// Idempotent. Refusals: the pause gate, then the admin gate.
    pub fn remove_service_price(&mut self, env: &mut Env, service_id: Symbol) -> (r: Result<
        (),
        EscrowError,
    >)
        requires
            old(self).wf(),
        ensures
            final(self).wf(),
            match old(self)@.paused_admin_gate(*old(env)) {
                Some(e) => {
                    &&& r == Err::<(), EscrowError>(e)
                    &&& final(self)@ == old(self)@
                    &&& *final(env) == *old(env)
                },
                None => {
                    &&& r == Ok::<(), EscrowError>(())
                    &&& final(self)@ == (EscrowView {
                        prices: old(self)@.prices.remove(service_id@),
                        ..old(self)@
                    })
                    &&& final(env).publishes(*old(env), seq![Event::PriceRemoved { service_id }])
                },
            },
    {
        match self.paused_admin_check(env) {
            Some(e) => { return Err(e); },
            None => {},
        }
        let ghost v = self@;
        self.prices.remove(&service_id);
        proof {
            assert(self@ =~= EscrowView { prices: v.prices.remove(service_id@), ..v });
        }
        env.publish(Event::PriceRemoved { service_id });
        Ok(())
    }

    /// Stores a volume price schedule for a service. Refusals, in order: the
    /// pause gate, the admin gate, a negative tier price, thresholds that do
    /// not strictly increase.
    pub fn set_price_tiers(
        &mut self,
        env: &mut Env,
        service_id: Symbol,
        tiers: Vec<PriceTier>,
    ) -> (r: Result<(), EscrowError>)
        requires
            old(self).wf(),
        ensures
            final(self).wf(),
            match old(self)@.set_tiers_check(*old(env), tiers@) {
                Some(e) => {
                    &&& r == Err::<(), EscrowError>(e)
                    &&& final(self)@ == old(self)@
                    &&& *final(env) == *old(env)
                },
                None => {
                    &&& r == Ok::<(), EscrowError>(())
                    &&& final(self)@ == (EscrowView {
                        tiers: old(self)@.tiers.insert(service_id@, tiers@),
                        ..old(self)@
                    })
                    &&& final(env).publishes(*old(env), seq![Event::TiersSet { service_id }])
                },
            },
    {
        match self.paused_admin_check(env) {
            Some(e) => { return Err(e); },
            None => {},
        }
        match validate_tiers(&tiers) {
            Err(e) => { return Err(e); },
            Ok(()) => {},
        }
        let ghost v = self@;
        proof {
            lemma_tier_views_insert(self.tiers@, service_id@, tiers);
        }
        self.tiers.insert(service_id.duplicate(), tiers);
        proof {
            assert(self@ =~= EscrowView { tiers: v.tiers.insert(service_id@, tiers@), ..v });
        }
        env.publish(Event::TiersSet { service_id });
        Ok(())
    }

    /// The service's price schedule, if one is configured.
    pub fn get_price_tiers(&self, service_id: &Symbol) -> (r: Option<Vec<PriceTier>>)
        requires
            self.wf(),
        ensures
            match r {
                Some(t) => self@.tiers_of(service_id@) == Some(t@),
                None => self@.tiers_of(service_id@) is None,
            },
    {
        match self.tiers.get(service_id) {
            Some(t) => Some(duplicate_tiers(t)),
            None => None,
        }
    }

    /// Removes a service's price schedule; billing falls back to the flat
    /// price. Refusals: the pause gate, then the admin gate.
    pub fn remove_price_tiers(&mut self, env: &mut Env, service_id: Symbol) -> (r: Result<
        (),
        EscrowError,
    >)
        requires
            old(self).wf(),
        ensures
            final(self).wf(),
            match old(self)@.paused_admin_gate(*old(env)) {
                Some(e) => {
                    &&& r == Err::<(), EscrowError>(e)
                    &&& final(self)@ == old(self)@
                    &&& *final(env) == *old(env)
                },
                None => {
                    &&& r == Ok::<(), EscrowError>(())
                    &&& final(self)@ == (EscrowView {
                        tiers: old(self)@.tiers.remove(service_id@),
                        ..old(self)@
                    })
                    &&& final(env).publishes(*old(env), seq![Event::TiersRemoved { service_id }])
                },
            },
    {
        match self.paused_admin_check(env) {
            Some(e) => { return Err(e); },
            None => {},
        }
        let ghost v = self@;
        proof {
            lemma_tier_views_remove(self.tiers@, service_id@);
        }
        self.tiers.remove(&service_id);
        proof {
            assert(self@ =~= EscrowView { tiers: v.tiers.remove(service_id@), ..v });
        }
        env.publish(Event::TiersRemoved { service_id });
        Ok(())
    }

    /// Sets the band `[min_stroops, max_stroops]` that every later
    /// `set_service_price` must respect. Refusals, in order: the pause gate,
    /// the admin gate, an inverted band.
    pub fn set_price_bounds(
        &mut self,
        env: &mut Env,
        min_stroops: i128,
        max_stroops: i128,
    ) -> (r: Result<(), EscrowError>)
        requires
            old(self).wf(),
        ensures
            final(self).wf(),
            match old(self)@.paused_admin_gate(*old(env)) {
                Some(e) => {
                    &&& r == Err::<(), EscrowError>(e)
                    &&& final(self)@ == old(self)@
                    &&& *final(env) == *old(env)
                },
                None => if min_stroops > max_stroops {
                    &&& r == Err::<(), EscrowError>(EscrowError::InvertedPriceBand)
                    &&& final(self)@ == old(self)@
                    &&& *final(env) == *old(env)
                } else {
                    &&& r == Ok::<(), EscrowError>(())
                    &&& final(self)@ == (EscrowView {
                        min_price: min_stroops,
                        max_price: max_stroops,
                        ..old(self)@
                    })
                    &&& final(env).publishes(
                        *old(env),
                        seq![Event::PriceBoundsSet { min: min_stroops, max: max_stroops }],
                    )
                },
            },
    {
        match self.paused_admin_check(env) {
            Some(e) => { return Err(e); },
            None => {},
        }
        if min_stroops > max_stroops {
            return Err(EscrowError::InvertedPriceBand);
        }
        self.min_price = min_stroops;
        self.max_price = max_stroops;
        env.publish(Event::PriceBoundsSet { min: min_stroops, max: max_stroops });
        Ok(())
    }

    /// The price floor; `0` when never set.
    pub fn get_min_service_price(&self) -> (r: i128)
        ensures
            r == self@.min_price,
    {
        self.min_price
    }

    /// The price ceiling; `i128::MAX` when never set.
    pub fn get_max_service_price(&self) -> (r: i128)
        ensures
            r == self@.max_price,
    {
        self.max_price
    }

    // ── settlement ─────────────────────────────────────────────────────────
    fn settle_permission_check(&self, caller: Address, service_id: &Symbol) -> (r: Option<
        EscrowError,
    >)
        requires
            self.wf(),
        ensures
            r == self@.settle_permission(caller, service_id@),
    {
        match self.admin {
            Some(a) => {
                if a.id == caller.id {
                    return None;
                }
            },
            None => {},
        }
        match self.metadata.get(service_id) {
            None => Some(EscrowError::ServiceMetadataNotFound),
            Some(m) => if m.owner.id != caller.id {
                Some(EscrowError::Unauthorized)
            } else {
                None
            },
        }
    }

    fn settle_gate_check(&self, env: &Env, caller: Address) -> (r: Option<EscrowError>)
        ensures
            r == self@.settle_gate(*env, caller),
    {
        if self.paused {
            return Some(EscrowError::ContractPaused);
        }
        match env.require_auth(caller) {
            Err(e) => { return Some(e); },
            Ok(()) => {},
        }
        if self.admin.is_none() {
            return Some(EscrowError::NotInitialized);
        }
        None
    }

    /// Settles one pair: drains its usage, stamps the time, adds a positive
    /// bill to the settled sums and draws it from prepaid credit.
    fn settle_pair(&mut self, env: &mut Env, agent: Address, service_id: &Symbol) -> (billed: i128)
        requires
            old(self).wf(),
        ensures
            final(self).wf(),
            billed == old(self)@.bill_of(agent, service_id@),
            final(self)@ == old(self)@.settle_next(old(env).now(), agent, service_id@),
            final(env).publishes(*old(env), old(self)@.settle_events(agent, *service_id)),
    {
        let ghost v = self@;
        let ghost env0 = *env;
        proof {
            lemma_bill_nonnegative(v, agent, service_id@);
        }
        let now = env.timestamp();
        let requests = self.get_usage(agent, service_id);
        let billed = self.compute_billing(agent, service_id);
        self.usage.insert((agent, service_id.duplicate()), 0);
        self.last_settlement.insert((agent, service_id.duplicate()), now);
        if billed > 0 {
            let prev = self.agent_settled.get_or(&agent, 0);
            self.agent_settled.insert(agent, saturating_add_i128(prev, billed));
            self.total_settled = saturating_add_i128(self.total_settled, billed);
            let balance = self.credit.get_or(&agent, 0);
            if self.credit.contains(&agent) {
                let after = floor_sub_i128(balance, billed);
                self.credit.insert(agent, after);
                let ghost env1 = *env;
                env.publish(Event::CreditDebited { agent, debit: balance - after, balance: after });
                let ghost env2 = *env;
                env.publish(
                    Event::Settled { agent, service_id: service_id.duplicate(), requests, billed },
                );
                proof {
                    let debited = seq![
                        Event::CreditDebited { agent, debit: (balance - after) as i128, balance: after },
                    ];
                    let settled = seq![
                        Event::Settled { agent, service_id: *service_id, requests, billed },
                    ];
                    Env::lemma_publishes_trans(env1, env2, *env, debited, settled);
                    assert(debited + settled =~= v.settle_events(agent, *service_id));
                    assert(self@ =~= v.settle_next(now, agent, service_id@));
                }
                return billed;
            }
        }
        env.publish(Event::Settled { agent, service_id: service_id.duplicate(), requests, billed });
        proof {
            assert(self@ =~= v.settle_next(now, agent, service_id@));
        }
        billed
    }

    /// Settles the pair: drains its usage, stamps the ledger time, and hands
    /// back what it billed. The admin may settle any service; anyone else only
    /// a service whose metadata names them as owner. Refusals, in order: the
    /// pause gate, the caller's missing authorization, an uninitialized
    /// contract, missing metadata, a caller who is not the owner.
    pub fn settle(
        &mut self,
        env: &mut Env,
        caller: Address,
        agent: Address,
        service_id: Symbol,
    ) -> (r: Result<i128, EscrowError>)
        requires
            old(self).wf(),
        ensures
            final(self).wf(),
            match old(self)@.settle_check(*old(env), caller, service_id@) {
                Some(e) => {
                    &&& r == Err::<i128, EscrowError>(e)
                    &&& final(self)@ == old(self)@
                    &&& *final(env) == *old(env)
                },
                None => {
                    &&& r == Ok::<i128, EscrowError>(old(self)@.bill_of(agent, service_id@))
                    &&& final(self)@ == old(self)@.settle_next(old(env).now(), agent, service_id@)
                    &&& final(env).publishes(*old(env), old(self)@.settle_events(agent, service_id))
                },
            },
    {
        match self.settle_gate_check(env, caller) {
            Some(e) => { return Err(e); },
            None => {},
        }
        match self.settle_permission_check(caller, &service_id) {
            Some(e) => { return Err(e); },
            None => {},
        }
        let billed = self.settle_pair(env, agent, &service_id);
        Ok(billed)
    }

    /// Settles every service of the agent that the caller may settle and that
    /// holds usage, in first-use order; hands back each settled service with
    /// its bill, and publishes `settl_all(agent, total)` last. Refusals, in
    /// order: the pause gate, the caller's missing authorization, an
    /// uninitialized contract.
    pub fn settle_all(&mut self, env: &mut Env, caller: Address, agent: Address) -> (r: Result<
        Vec<(Symbol, i128)>,
        EscrowError,
    >)
        requires
            old(self).wf(),
        ensures
            final(self).wf(),
            match old(self)@.settle_gate(*old(env), caller) {
                Some(e) => {
                    &&& r == Err::<Vec<(Symbol, i128)>, EscrowError>(e)
                    &&& final(self)@ == old(self)@
                    &&& *final(env) == *old(env)
                },
                None => {
                    let f = old(self)@.settle_all_fold(
                        old(env).now(),
                        caller,
                        agent,
                        old(self)@.services_of(agent),
                    );
                    &&& r matches Ok(out) && out@ == f.1
                    &&& final(self)@ == f.0
                    &&& final(env).publishes(
                        *old(env),
                        f.2.push(Event::SettledAll { agent, total: f.3 }),
                    )
                },
            },
    {
        match self.settle_gate_check(env, caller) {
            Some(e) => { return Err(e); },
            None => {},
        }
        let ghost v = self@;
        let ghost env0 = *env;
        let now = env.timestamp();
        let list = self.services_list(agent);
        let mut out: Vec<(Symbol, i128)> = Vec::new();
        let mut total: i128 = 0;
        let mut i: usize = 0;
        proof {
            env0.lemma_publishes_nothing();
        }
        while i < list.len()
            invariant
                self.wf(),
                i <= list@.len(),
                list@ == v.services_of(agent),
                env.now() == now,
                now == env0.now(),
                ({
                    let f = v.settle_all_fold(now, caller, agent, list@.subrange(0, i as int));
                    &&& self@ == f.0
                    &&& out@ == f.1
                    &&& env.publishes(env0, f.2)
                    &&& total == f.3
                }),
            decreases list@.len() - i,
        {
            let ghost before = list@.subrange(0, i as int);
            proof {
                assert(list@.subrange(0, i + 1).drop_last() =~= before);
                assert(list@.subrange(0, i + 1).last() == list@[i as int]);
            }
            let svc = &list[i];
            let allowed = self.settle_permission_check(caller, svc).is_none();
            if allowed && self.get_usage(agent, svc) > 0 {
                let ghost env1 = *env;
                let ghost v1 = self@;
                let billed = self.settle_pair(env, agent, svc);
                proof {
                    let earlier = v.settle_all_fold(now, caller, agent, before).2;
                    let this_pair = v1.settle_events(agent, *svc);
                    Env::lemma_publishes_trans(env0, env1, *env, earlier, this_pair);
                    env.lemma_publishes_keeps_host(env1, this_pair);
                }
                out.push((svc.duplicate(), billed));
                total = saturating_add_i128(total, billed);
            }
            i = i + 1;
        }
        proof {
            assert(list@.subrange(0, list@.len() as int) =~= list@);
        }
        let ghost env1 = *env;
        env.publish(Event::SettledAll { agent, total });
        proof {
            let f = v.settle_all_fold(now, caller, agent, list@);
            let last = Event::SettledAll { agent, total };
            Env::lemma_publishes_trans(env0, env1, *env, f.2, seq![last]);
            assert(f.2 + seq![last] =~= f.2.push(last));
        }
        Ok(out)
    }

    /// Adds `amount` stroops of prepaid credit to the agent (saturating).
    /// Refusals, in order: the pause gate, the admin gate, an amount that is
    /// not positive.
    pub fn credit_agent(&mut self, env: &mut Env, agent: Address, amount: i128) -> (r: Result<
        (),
        EscrowError,
    >)
        requires
            old(self).wf(),
        ensures
            final(self).wf(),
            *final(env) == *old(env),
            match old(self)@.paused_admin_gate(*old(env)) {
                Some(e) => r == Err::<(), EscrowError>(e) && final(self)@ == old(self)@,
                None => if amount <= 0 {
                    r == Err::<(), EscrowError>(EscrowError::RequestsMustBePositive)
                        && final(self)@ == old(self)@
                } else {
                    &&& r == Ok::<(), EscrowError>(())
                    &&& final(self)@ == (EscrowView {
                        credit: old(self)@.credit.insert(
                            agent,
                            clamp_i128(get_or(old(self)@.credit, agent, 0) + amount),
                        ),
                        ..old(self)@
                    })
                },
            },
    {
        match self.paused_admin_check(env) {
            Some(e) => { return Err(e); },
            None => {},
        }
        if amount <= 0 {
            return Err(EscrowError::RequestsMustBePositive);
        }
        let ghost v = self@;
        let balance = self.credit.get_or(&agent, 0);
        let after = saturating_add_i128(balance, amount);
        self.credit.insert(agent, after);
        proof {
            assert(self@ =~= EscrowView { credit: v.credit.insert(agent, after), ..v });
        }
        Ok(())
    }

    /// The agent's prepaid credit in stroops; `0` when never funded.
    pub fn get_agent_credit(&self, agent: Address) -> (r: i128)
        requires
            self.wf(),
        ensures
            r == get_or(self@.credit, agent, 0),
    {
        self.credit.get_or(&agent, 0)
    }

    // ── admin and pause ────────────────────────────────────────────────────
    /// Pauses the contract; pausing twice keeps it paused. Admin-gated.
    pub fn pause(&mut self, env: &mut Env) -> (r: Result<(), EscrowError>)
        requires
            old(self).wf(),
        ensures
            final(self).wf(),
            match old(self)@.admin_gate(*old(env)) {
                Some(e) => {
                    &&& r == Err::<(), EscrowError>(e)
                    &&& final(self)@ == old(self)@
                    &&& *final(env) == *old(env)
                },
                None => {
                    &&& r == Ok::<(), EscrowError>(())
                    &&& final(self)@ == (EscrowView { paused: true, ..old(self)@ })
                    &&& final(env).publishes(*old(env), seq![Event::Paused { paused: true }])
                },
            },
    {
        match self.admin_check(env) {
            Some(e) => { return Err(e); },
            None => {},
        }
        self.paused = true;
        env.publish(Event::Paused { paused: true });
        Ok(())
    }

    /// Unpauses the contract; unpausing an unpaused contract is a no-op on
    /// the state. Admin-gated.
    pub fn unpause(&mut self, env: &mut Env) -> (r: Result<(), EscrowError>)
        requires
            old(self).wf(),
        ensures
            final(self).wf(),
            match old(self)@.admin_gate(*old(env)) {
                Some(e) => {
                    &&& r == Err::<(), EscrowError>(e)
                    &&& final(self)@ == old(self)@
                    &&& *final(env) == *old(env)
                },
                None => {
                    &&& r == Ok::<(), EscrowError>(())
                    &&& final(self)@ == (EscrowView { paused: false, ..old(self)@ })
                    &&& final(env).publishes(*old(env), seq![Event::Paused { paused: false }])
                },
            },
    {
        match self.admin_check(env) {
            Some(e) => { return Err(e); },
            None => {},
        }
        self.paused = false;
        env.publish(Event::Paused { paused: false });
        Ok(())
    }

    /// Whether the contract is paused.
    pub fn is_paused(&self) -> (r: bool)
        ensures
            r == self@.paused,
    {
        self.paused
    }

    /// Proposes `new_admin` as the next admin. Refusals, in order: the admin
    /// gate, proposing the current admin.
    pub fn propose_admin_transfer(&mut self, env: &mut Env, new_admin: Address) -> (r: Result<
        (),
        EscrowError,
    >)
        requires
            old(self).wf(),
        ensures
            final(self).wf(),
            match old(self)@.admin_gate(*old(env)) {
                Some(e) => {
                    &&& r == Err::<(), EscrowError>(e)
                    &&& final(self)@ == old(self)@
                    &&& *final(env) == *old(env)
                },
                None => if old(self)@.admin == Some(new_admin) {
                    &&& r == Err::<(), EscrowError>(EscrowError::InvalidAdminProposal)
                    &&& final(self)@ == old(self)@
                    &&& *final(env) == *old(env)
                } else {
                    &&& r == Ok::<(), EscrowError>(())
                    &&& final(self)@ == (EscrowView {
                        pending_admin: Some(new_admin),
                        ..old(self)@
                    })
                    &&& final(env).publishes(
                        *old(env),
                        seq![
                            Event::AdminProposed {
                                admin: old(self)@.admin.unwrap(),
                                proposed: new_admin,
                            },
                        ],
                    )
                },
            },
    {
        match self.admin_check(env) {
            Some(e) => { return Err(e); },
            None => {},
        }
        let admin = match self.admin {
            Some(a) => a,
            None => { return Err(EscrowError::NotInitialized); },
        };
        if admin.id == new_admin.id {
            return Err(EscrowError::InvalidAdminProposal);
        }
        self.pending_admin = Some(new_admin);
        env.publish(Event::AdminProposed { admin, proposed: new_admin });
        Ok(())
    }

    /// The pending admin accepts the handover, becoming the admin. Refusals,
    /// in order: the caller's missing authorization, no pending admin, a
    /// caller who is not the pending admin.
    pub fn accept_admin_transfer(&mut self, env: &mut Env, caller: Address) -> (r: Result<
        (),
        EscrowError,
    >)
        requires
            old(self).wf(),
        ensures
            final(self).wf(),
            if !old(env).authorizes(caller) {
                &&& r == Err::<(), EscrowError>(EscrowError::MissingAuth(caller))
                &&& final(self)@ == old(self)@
                &&& *final(env) == *old(env)
            } else if old(self)@.pending_admin is None {
                &&& r == Err::<(), EscrowError>(EscrowError::NoPendingAdmin)
                &&& final(self)@ == old(self)@
                &&& *final(env) == *old(env)
            } else if old(self)@.pending_admin != Some(caller) {
                &&& r == Err::<(), EscrowError>(EscrowError::Unauthorized)
                &&& final(self)@ == old(self)@
                &&& *final(env) == *old(env)
            } else {
                &&& r == Ok::<(), EscrowError>(())
                &&& final(self)@ == (EscrowView {
                    admin: Some(caller),
                    pending_admin: None,
                    ..old(self)@
                })
                &&& final(env).publishes(
                    *old(env),
                    seq![Event::AdminChanged { old: old(self)@.admin.unwrap(), new: caller }],
                )
            },
    {
        match env.require_auth(caller) {
            Err(e) => { return Err(e); },
            Ok(()) => {},
        }
        let pending = match self.pending_admin {
            None => { return Err(EscrowError::NoPendingAdmin); },
            Some(p) => p,
        };
        if pending.id != caller.id {
            return Err(EscrowError::Unauthorized);
        }
        let old_admin = match self.admin {
            Some(a) => a,
            None => { return Err(EscrowError::NotInitialized); },
        };
        self.admin = Some(caller);
        self.pending_admin = None;
        env.publish(Event::AdminChanged { old: old_admin, new: caller });
        Ok(())
    }

    /// Withdraws the pending proposal. Refusals, in order: the admin gate, no
    /// pending admin.
    pub fn cancel_admin_transfer(&mut self, env: &mut Env) -> (r: Result<(), EscrowError>)
        requires
            old(self).wf(),
        ensures
            final(self).wf(),
            match old(self)@.admin_gate(*old(env)) {
                Some(e) => {
                    &&& r == Err::<(), EscrowError>(e)
                    &&& final(self)@ == old(self)@
                    &&& *final(env) == *old(env)
                },
                None => if old(self)@.pending_admin is None {
                    &&& r == Err::<(), EscrowError>(EscrowError::NoPendingAdmin)
                    &&& final(self)@ == old(self)@
                    &&& *final(env) == *old(env)
                } else {
                    &&& r == Ok::<(), EscrowError>(())
                    &&& final(self)@ == (EscrowView { pending_admin: None, ..old(self)@ })
                    &&& final(env).publishes(
                        *old(env),
                        seq![
                            Event::AdminTransferCancelled {
                                admin: old(self)@.admin.unwrap(),
                                pending: old(self)@.pending_admin.unwrap(),
                            },
                        ],
                    )
                },
            },
    {
        match self.admin_check(env) {
            Some(e) => { return Err(e); },
            None => {},
        }
        let admin = match self.admin {
            Some(a) => a,
            None => { return Err(EscrowError::NotInitialized); },
        };
        let pending = match self.pending_admin {
            None => { return Err(EscrowError::NoPendingAdmin); },
            Some(p) => p,
        };
        self.pending_admin = None;
        env.publish(Event::AdminTransferCancelled { admin, pending });
        Ok(())
    }

    /// The proposed next admin, if any.
    pub fn get_pending_admin(&self) -> (r: Option<Address>)
        ensures
            r == self@.pending_admin,
    {
        self.pending_admin
    }

    /// The storage schema version; `1` for a contract never stamped.
    pub fn get_schema_version(&self) -> (r: u32)
        ensures
            r == self@.schema_version,
    {
        self.schema_version
    }

    /// Migrates a legacy schema to the current one. Refusals, in order: the
    /// admin gate, a schema that is not the legacy one.
    pub fn migrate_v1_to_v2(&mut self, env: &mut Env) -> (r: Result<(), EscrowError>)
        requires
            old(self).wf(),
        ensures
            final(self).wf(),
            *final(env) == *old(env),
            match old(self)@.admin_gate(*old(env)) {
                Some(e) => r == Err::<(), EscrowError>(e) && final(self)@ == old(self)@,
                None => if old(self)@.schema_version != SCHEMA_VERSION_LEGACY {
                    r == Err::<(), EscrowError>(EscrowError::MigrationVersionMismatch)
                        && final(self)@ == old(self)@
                } else {
                    r == Ok::<(), EscrowError>(()) && final(self)@ == (EscrowView {
                        schema_version: SCHEMA_VERSION_CURRENT,
                        ..old(self)@
                    })
                },
            },
    {
        match self.admin_check(env) {
            Some(e) => { return Err(e); },
            None => {},
        }
        if self.schema_version != SCHEMA_VERSION_LEGACY {
            return Err(EscrowError::MigrationVersionMismatch);
        }
        self.schema_version = SCHEMA_VERSION_CURRENT;
        Ok(())
    }

    // ── access lists and flags ─────────────────────────────────────────────
    /// Turns the agent allowlist gate on or off. Refusals: the pause gate,
    /// then the admin gate.
    pub fn set_allowlist_enabled(&mut self, env: &mut Env, enabled: bool) -> (r: Result<
        (),
        EscrowError,
    >)
        requires
            old(self).wf(),
        ensures
            final(self).wf(),
            match old(self)@.paused_admin_gate(*old(env)) {
                Some(e) => {
                    &&& r == Err::<(), EscrowError>(e)
                    &&& final(self)@ == old(self)@
                    &&& *final(env) == *old(env)
                },
                None => {
                    &&& r == Ok::<(), EscrowError>(())
                    &&& final(self)@ == (EscrowView { allowlist_enabled: enabled, ..old(self)@ })
                    &&& final(env).publishes(
                        *old(env),
                        seq![
                            Event::ConfigSet {
                                name: ConfigName::Allowlist,
                                value: ConfigValue::Bool(enabled),
                            },
                        ],
                    )
                },
            },
    {
        match self.paused_admin_check(env) {
            Some(e) => { return Err(e); },
            None => {},
        }
        self.allowlist_enabled = enabled;
        env.publish(
            Event::ConfigSet { name: ConfigName::Allowlist, value: ConfigValue::Bool(enabled) },
        );
        Ok(())
    }

    /// Whether the allowlist gate is on.
    pub fn is_allowlist_enabled(&self) -> (r: bool)
        ensures
            r == self@.allowlist_enabled,
    {
        self.allowlist_enabled
    }

    /// Requires, or stops requiring, that services be registered before use.
    /// Refusals: the pause gate, then the admin gate.
    pub fn set_require_service_registration(&mut self, env: &mut Env, required: bool) -> (r:
        Result<(), EscrowError>)
        requires
            old(self).wf(),
        ensures
            final(self).wf(),
            match old(self)@.paused_admin_gate(*old(env)) {
                Some(e) => {
                    &&& r == Err::<(), EscrowError>(e)
                    &&& final(self)@ == old(self)@
                    &&& *final(env) == *old(env)
                },
                None => {
                    &&& r == Ok::<(), EscrowError>(())
                    &&& final(self)@ == (EscrowView {
                        require_registration: required,
                        ..old(self)@
                    })
                    &&& final(env).publishes(
                        *old(env),
                        seq![
                            Event::ConfigSet {
                                name: ConfigName::ReqReg,
                                value: ConfigValue::Bool(required),
                            },
                        ],
                    )
                },
            },
    {
        match self.paused_admin_check(env) {
            Some(e) => { return Err(e); },
            None => {},
        }
        self.require_registration = required;
        env.publish(
            Event::ConfigSet { name: ConfigName::ReqReg, value: ConfigValue::Bool(required) },
        );
        Ok(())
    }

    /// Whether services must be registered before use.
    pub fn is_service_registration_required(&self) -> (r: bool)
        ensures
            r == self@.require_registration,
    {
        self.require_registration
    }

    /// Puts the agent on, or takes it off, the allowlist. Refusals: the pause
    /// gate, then the admin gate.
    pub fn set_agent_allowed(&mut self, env: &mut Env, agent: Address, allowed: bool) -> (r:
        Result<(), EscrowError>)
        requires
            old(self).wf(),
        ensures
            final(self).wf(),
            match old(self)@.paused_admin_gate(*old(env)) {
                Some(e) => {
                    &&& r == Err::<(), EscrowError>(e)
                    &&& final(self)@ == old(self)@
                    &&& *final(env) == *old(env)
                },
                None => {
                    &&& r == Ok::<(), EscrowError>(())
                    &&& final(self)@ == (EscrowView {
                        allowed: old(self)@.allowed.insert(agent, allowed),
                        ..old(self)@
                    })
                    &&& final(env).publishes(
                        *old(env),
                        seq![Event::AgentAllowed { agent, allowed }],
                    )
                },
            },
    {
        match self.paused_admin_check(env) {
            Some(e) => { return Err(e); },
            None => {},
        }
        let ghost v = self@;
        self.allowed.insert(agent, allowed);
        proof {
            assert(self@ =~= EscrowView { allowed: v.allowed.insert(agent, allowed), ..v });
        }
        env.publish(Event::AgentAllowed { agent, allowed });
        Ok(())
    }

    /// Whether the agent is on the allowlist.
    pub fn is_agent_allowed(&self, agent: Address) -> (r: bool)
        requires
            self.wf(),
        ensures
            r == flag(self@.allowed, agent),
    {
        self.allowed.get_or(&agent, false)
    }

    /// Blocks or unblocks the agent; a block wins over the allowlist.
    /// Refusals: the pause gate, then the admin gate.
    pub fn set_agent_blocked(&mut self, env: &mut Env, agent: Address, blocked: bool) -> (r:
        Result<(), EscrowError>)
        requires
            old(self).wf(),
        ensures
            final(self).wf(),
            match old(self)@.paused_admin_gate(*old(env)) {
                Some(e) => {
                    &&& r == Err::<(), EscrowError>(e)
                    &&& final(self)@ == old(self)@
                    &&& *final(env) == *old(env)
                },
                None => {
                    &&& r == Ok::<(), EscrowError>(())
                    &&& final(self)@ == (EscrowView {
                        blocked: old(self)@.blocked.insert(agent, blocked),
                        ..old(self)@
                    })
                    &&& final(env).publishes(
                        *old(env),
                        seq![Event::AgentBlocked { agent, blocked }],
                    )
                },
            },
    {
        match self.paused_admin_check(env) {
            Some(e) => { return Err(e); },
            None => {},
        }
        let ghost v = self@;
        self.blocked.insert(agent, blocked);
        proof {
            assert(self@ =~= EscrowView { blocked: v.blocked.insert(agent, blocked), ..v });
        }
        env.publish(Event::AgentBlocked { agent, blocked });
        Ok(())
    }

    /// Whether the agent is blocked.
    pub fn is_agent_blocked(&self, agent: Address) -> (r: bool)
        requires
            self.wf(),
        ensures
            r == flag(self@.blocked, agent),
    {
        self.blocked.get_or(&agent, false)
    }

    // ── per-call bounds and rate limit ─────────────────────────────────────
    /// Sets the per-call ceiling. Refusals, in order: the pause gate, the admin
    /// gate, a ceiling below the stored floor.
    pub fn set_max_requests_per_call(&mut self, env: &mut Env, max: u32) -> (r: Result<
        (),
        EscrowError,
    >)
        requires
            old(self).wf(),
        ensures
            final(self).wf(),
            match old(self)@.paused_admin_gate(*old(env)) {
                Some(e) => {
                    &&& r == Err::<(), EscrowError>(e)
                    &&& final(self)@ == old(self)@
                    &&& *final(env) == *old(env)
                },
                None => if max < old(self)@.min_per_call {
                    &&& r == Err::<(), EscrowError>(EscrowError::InvalidRequestBounds)
                    &&& final(self)@ == old(self)@
                    &&& *final(env) == *old(env)
                } else {
                    &&& r == Ok::<(), EscrowError>(())
                    &&& final(self)@ == (EscrowView { max_per_call: max, ..old(self)@ })
                    &&& final(env).publishes(
                        *old(env),
                        seq![
                            Event::ConfigSet {
                                name: ConfigName::MaxCall,
                                value: ConfigValue::U32(max),
                            },
                        ],
                    )
                },
            },
    {
        match self.paused_admin_check(env) {
            Some(e) => { return Err(e); },
            None => {},
        }
        if max < self.min_per_call {
            return Err(EscrowError::InvalidRequestBounds);
        }
        self.max_per_call = max;
        env.publish(Event::ConfigSet { name: ConfigName::MaxCall, value: ConfigValue::U32(max) });
        Ok(())
    }

    /// Sets the per-call floor. Refusals, in order: the pause gate, the admin
    /// gate, a floor above the stored ceiling.
    pub fn set_min_requests_per_call(&mut self, env: &mut Env, min: u32) -> (r: Result<
        (),
        EscrowError,
    >)
        requires
            old(self).wf(),
        ensures
            final(self).wf(),
            match old(self)@.paused_admin_gate(*old(env)) {
                Some(e) => {
                    &&& r == Err::<(), EscrowError>(e)
                    &&& final(self)@ == old(self)@
                    &&& *final(env) == *old(env)
                },
                None => if min > old(self)@.max_per_call {
                    &&& r == Err::<(), EscrowError>(EscrowError::InvalidRequestBounds)
                    &&& final(self)@ == old(self)@
                    &&& *final(env) == *old(env)
                } else {
                    &&& r == Ok::<(), EscrowError>(())
                    &&& final(self)@ == (EscrowView { min_per_call: min, ..old(self)@ })
                    &&& final(env).publishes(
                        *old(env),
                        seq![
                            Event::ConfigSet {
                                name: ConfigName::MinCall,
                                value: ConfigValue::U32(min),
                            },
                        ],
                    )
                },
            },
    {
        match self.paused_admin_check(env) {
            Some(e) => { return Err(e); },
            None => {},
        }
        if min > self.max_per_call {
            return Err(EscrowError::InvalidRequestBounds);
        }
        self.min_per_call = min;
        env.publish(Event::ConfigSet { name: ConfigName::MinCall, value: ConfigValue::U32(min) });
        Ok(())
    }

    /// The per-call ceiling; `u32::MAX` when never set.
    pub fn get_max_requests_per_call(&self) -> (r: u32)
        ensures
            r == self@.max_per_call,
    {
        self.max_per_call
    }

    /// The per-call floor; `0` when never set.
    pub fn get_min_requests_per_call(&self) -> (r: u32)
        ensures
            r == self@.min_per_call,
    {
        self.min_per_call
    }

    /// Sets the cap on requests per rate window; `0` turns the limiter off.
    /// Refusals: the pause gate, then the admin gate.
    pub fn set_max_requests_per_window(&mut self, env: &mut Env, max: u32) -> (r: Result<
        (),
        EscrowError,
    >)
        requires
            old(self).wf(),
        ensures
            final(self).wf(),
            match old(self)@.paused_admin_gate(*old(env)) {
                Some(e) => {
                    &&& r == Err::<(), EscrowError>(e)
                    &&& final(self)@ == old(self)@
                    &&& *final(env) == *old(env)
                },
                None => {
                    &&& r == Ok::<(), EscrowError>(())
                    &&& final(self)@ == (EscrowView { max_per_window: max, ..old(self)@ })
                    &&& final(env).publishes(
                        *old(env),
                        seq![
                            Event::ConfigSet {
                                name: ConfigName::MaxWin,
                                value: ConfigValue::U32(max),
                            },
                        ],
                    )
                },
            },
    {
        match self.paused_admin_check(env) {
            Some(e) => { return Err(e); },
            None => {},
        }
        self.max_per_window = max;
        env.publish(Event::ConfigSet { name: ConfigName::MaxWin, value: ConfigValue::U32(max) });
        Ok(())
    }

    /// Sets the rate window's length in seconds; `0` turns the limiter off.
    /// Refusals: the pause gate, then the admin gate.
    pub fn set_rate_window_seconds(&mut self, env: &mut Env, seconds: u64) -> (r: Result<
        (),
        EscrowError,
    >)
        requires
            old(self).wf(),
        ensures
            final(self).wf(),
            match old(self)@.paused_admin_gate(*old(env)) {
                Some(e) => {
                    &&& r == Err::<(), EscrowError>(e)
                    &&& final(self)@ == old(self)@
                    &&& *final(env) == *old(env)
                },
                None => {
                    &&& r == Ok::<(), EscrowError>(())
                    &&& final(self)@ == (EscrowView { window_seconds: seconds, ..old(self)@ })
                    &&& final(env).publishes(
                        *old(env),
                        seq![
                            Event::ConfigSet {
                                name: ConfigName::WinSec,
                                value: ConfigValue::U64(seconds),
                            },
                        ],
                    )
                },
            },
    {
        match self.paused_admin_check(env) {
            Some(e) => { return Err(e); },
            None => {},
        }
        self.window_seconds = seconds;
        env.publish(
            Event::ConfigSet { name: ConfigName::WinSec, value: ConfigValue::U64(seconds) },
        );
        Ok(())
    }

    /// The cap on requests per rate window; `0` when never set.
    pub fn get_max_requests_per_window(&self) -> (r: u32)
        ensures
            r == self@.max_per_window,
    {
        self.max_per_window
    }

    /// The rate window's length; `0` when never set.
    pub fn get_rate_window_seconds(&self) -> (r: u64)
        ensures
            r == self@.window_seconds,
    {
        self.window_seconds
    }

    /// The agent's stored window `(window_start, count)`, as stored; `(0, 0)`
    /// when none is stored. A pure read: it does not roll the window.
    pub fn get_rate_window(&self, agent: Address) -> (r: (u64, u32))
        requires
            self.wf(),
        ensures
            r == get_or(self@.rate_windows, agent, (0u64, 0u32)),
    {
        self.rate_windows.get_or(&agent, (0, 0))
    }

    /// How many more requests the agent may record in its window now: the
    /// full cap when the limiter is off or the window has expired.
    pub fn get_remaining_in_window(&self, env: &Env, agent: Address) -> (r: u32)
        requires
            self.wf(),
        ensures
            r == remaining_in_window(
                self@.max_per_window,
                self@.window_seconds,
                self@.rate_window_of(agent),
                env.now(),
            ),
    {
        remaining_capacity(
            self.max_per_window,
            self.window_seconds,
            self.rate_window_value(agent),
            env.timestamp(),
        )
    }

    /// Clears the agent's rate window, so its next call opens a fresh one;
    /// a no-op on an agent with no window, and the cap and window length stay.
    /// Refusals: the pause gate, then the admin gate.
    pub fn reset_rate_window(&mut self, env: &mut Env, agent: Address) -> (r: Result<
        (),
        EscrowError,
    >)
        requires
            old(self).wf(),
        ensures
            final(self).wf(),
            match old(self)@.paused_admin_gate(*old(env)) {
                Some(e) => {
                    &&& r == Err::<(), EscrowError>(e)
                    &&& final(self)@ == old(self)@
                    &&& *final(env) == *old(env)
                },
                None => {
                    &&& r == Ok::<(), EscrowError>(())
                    &&& final(self)@ == (EscrowView {
                        rate_windows: old(self)@.rate_windows.remove(agent),
                        ..old(self)@
                    })
                    &&& final(env).publishes(*old(env), seq![Event::RateWindowReset { agent }])
                },
            },
    {
        match self.paused_admin_check(env) {
            Some(e) => { return Err(e); },
            None => {},
        }
        let ghost v = self@;
        self.rate_windows.remove(&agent);
        proof {
            assert(self@ =~= EscrowView { rate_windows: v.rate_windows.remove(agent), ..v });
        }
        env.publish(Event::RateWindowReset { agent });
        Ok(())
    }

    // ── snapshots ──────────────────────────────────────────────────────────
    /// Every global setting in one read; available before `init`.
    pub fn get_contract_config(&self) -> (c: ContractConfig)
        ensures
            c == self@.config(),
    {
        ContractConfig {
            paused: self.paused,
            allowlist_enabled: self.allowlist_enabled,
            require_service_registration: self.require_registration,
            max_requests_per_call: self.max_per_call,
            min_requests_per_call: self.min_per_call,
            max_requests_per_window: self.max_per_window,
            window_seconds: self.window_seconds,
            schema_version: self.schema_version,
            admin: self.admin,
        }
    }

    /// The pair's usage, flat price, bill and last settlement in one read.
    pub fn get_billing_summary(&self, agent: Address, service_id: &Symbol) -> (b: BillingSummary)
        requires
            self.wf(),
        ensures
            b == self@.billing_summary(agent, service_id@),
    {
        BillingSummary {
            requests: self.get_usage(agent, service_id),
            price_stroops: self.get_service_price(service_id),
            billed: self.compute_billing(agent, service_id),
            last_settlement: self.get_last_settlement(agent, service_id),
        }
    }

    // ── services ───────────────────────────────────────────────────────────
    /// Registers a service. Refusals: the pause gate, then the admin gate.
    pub fn register_service(&mut self, env: &mut Env, service_id: Symbol) -> (r: Result<
        (),
        EscrowError,
    >)
        requires
            old(self).wf(),
        ensures
            final(self).wf(),
            match old(self)@.paused_admin_gate(*old(env)) {
                Some(e) => {
                    &&& r == Err::<(), EscrowError>(e)
                    &&& final(self)@ == old(self)@
                    &&& *final(env) == *old(env)
                },
                None => {
                    &&& r == Ok::<(), EscrowError>(())
                    &&& final(self)@ == (EscrowView {
                        registered: old(self)@.registered.insert(service_id@, true),
                        ..old(self)@
                    })
                    &&& final(env).publishes(*old(env), seq![Event::ServiceAdded { service_id }])
                },
            },
    {
        match self.paused_admin_check(env) {
            Some(e) => { return Err(e); },
            None => {},
        }
        let ghost v = self@;
        self.registered.insert(service_id.duplicate(), true);
        proof {
            assert(self@ =~= EscrowView { registered: v.registered.insert(service_id@, true), ..v });
        }
        env.publish(Event::ServiceAdded { service_id });
        Ok(())
    }

    /// Removes only the service's registration slot; its metadata, disabled
    /// flag and usage stay. Refusals: the pause gate, then the admin gate.
    pub fn unregister_service(&mut self, env: &mut Env, service_id: Symbol) -> (r: Result<
        (),
        EscrowError,
    >)
        requires
            old(self).wf(),
        ensures
            final(self).wf(),
            match old(self)@.paused_admin_gate(*old(env)) {
                Some(e) => {
                    &&& r == Err::<(), EscrowError>(e)
                    &&& final(self)@ == old(self)@
                    &&& *final(env) == *old(env)
                },
                None => {
                    &&& r == Ok::<(), EscrowError>(())
                    &&& final(self)@ == (EscrowView {
                        registered: old(self)@.registered.remove(service_id@),
                        ..old(self)@
                    })
                    &&& final(env).publishes(*old(env), seq![Event::ServiceRemoved { service_id }])
                },
            },
    {
        match self.paused_admin_check(env) {
            Some(e) => { return Err(e); },
            None => {},
        }
        let ghost v = self@;
        self.registered.remove(&service_id);
        proof {
            assert(self@ =~= EscrowView { registered: v.registered.remove(service_id@), ..v });
        }
        env.publish(Event::ServiceRemoved { service_id });
        Ok(())
    }

    /// Whether the service is registered.
    pub fn is_service_registered(&self, service_id: &Symbol) -> (r: bool)
        requires
            self.wf(),
        ensures
            r == flag(self@.registered, service_id@),
    {
        self.registered.get_or(service_id, false)
    }

    /// Disables or re-enables a service; registration and metadata stay.
    /// Refusals: the pause gate, then the admin gate.
    pub fn set_service_disabled(
        &mut self,
        env: &mut Env,
        service_id: Symbol,
        disabled: bool,
    ) -> (r: Result<(), EscrowError>)
        requires
            old(self).wf(),
        ensures
            final(self).wf(),
            match old(self)@.paused_admin_gate(*old(env)) {
                Some(e) => {
                    &&& r == Err::<(), EscrowError>(e)
                    &&& final(self)@ == old(self)@
                    &&& *final(env) == *old(env)
                },
                None => {
                    &&& r == Ok::<(), EscrowError>(())
                    &&& final(self)@ == (EscrowView {
                        disabled: old(self)@.disabled.insert(service_id@, disabled),
                        ..old(self)@
                    })
                    &&& final(env).publishes(
                        *old(env),
                        seq![Event::ServiceDisabled { service_id, disabled }],
                    )
                },
            },
    {
        match self.paused_admin_check(env) {
            Some(e) => { return Err(e); },
            None => {},
        }
        let ghost v = self@;
        self.disabled.insert(service_id.duplicate(), disabled);
        proof {
            assert(self@ =~= EscrowView { disabled: v.disabled.insert(service_id@, disabled), ..v });
        }
        env.publish(Event::ServiceDisabled { service_id, disabled });
        Ok(())
    }

    /// Whether the service is disabled.
    pub fn is_service_disabled(&self, service_id: &Symbol) -> (r: bool)
        requires
            self.wf(),
        ensures
            r == flag(self@.disabled, service_id@),
    {
        self.disabled.get_or(service_id, false)
    }

    /// Sets the service's description and owner, replacing earlier metadata;
    /// registration stays as it is, and no event is published. Refusals: the
    /// pause gate, then the admin gate.
    pub fn set_service_metadata(
        &mut self,
        env: &mut Env,
        service_id: Symbol,
        description: String,
        owner: Address,
    ) -> (r: Result<(), EscrowError>)
        requires
            old(self).wf(),
        ensures
            final(self).wf(),
            match old(self)@.paused_admin_gate(*old(env)) {
                Some(e) => {
                    &&& r == Err::<(), EscrowError>(e)
                    &&& final(self)@ == old(self)@
                    &&& *final(env) == *old(env)
                },
                None => {
                    &&& r == Ok::<(), EscrowError>(())
                    &&& final(self)@ == (EscrowView {
                        metadata: old(self)@.metadata.insert(
                            service_id@,
                            ServiceMetadata { description, owner },
                        ),
                        ..old(self)@
                    })
                    &&& *final(env) == *old(env)
                },
            },
    {
        match self.paused_admin_check(env) {
            Some(e) => { return Err(e); },
            None => {},
        }
        let ghost v = self@;
        self.metadata.insert(service_id.duplicate(), ServiceMetadata { description, owner });
        proof {
            assert(self@ =~= EscrowView {
                metadata: v.metadata.insert(service_id@, ServiceMetadata { description, owner }),
                ..v
            });
        }
        Ok(())
    }

    /// The service's metadata, if set.
    pub fn get_service_metadata(&self, service_id: &Symbol) -> (r: Option<ServiceMetadata>)
        requires
            self.wf(),
        ensures
            r == (if self@.metadata.contains_key(service_id@) {
                Some(self@.metadata[service_id@])
            } else {
                None
            }),
    {
        match self.metadata.get(service_id) {
            Some(m) => Some(m.duplicate()),
            None => None,
        }
    }

    /// Removes only the service's metadata; registration and usage stay.
    /// Idempotent. Refusals: the pause gate, then the admin gate.
    pub fn clear_service_metadata(&mut self, env: &mut Env, service_id: Symbol) -> (r: Result<
        (),
        EscrowError,
    >)
        requires
            old(self).wf(),
        ensures
            final(self).wf(),
            match old(self)@.paused_admin_gate(*old(env)) {
                Some(e) => {
                    &&& r == Err::<(), EscrowError>(e)
                    &&& final(self)@ == old(self)@
                    &&& *final(env) == *old(env)
                },
                None => {
                    &&& r == Ok::<(), EscrowError>(())
                    &&& final(self)@ == (EscrowView {
                        metadata: old(self)@.metadata.remove(service_id@),
                        ..old(self)@
                    })
                    &&& final(env).publishes(*old(env), seq![Event::MetadataCleared { service_id }])
                },
            },
    {
        match self.paused_admin_check(env) {
            Some(e) => { return Err(e); },
            None => {},
        }
        let ghost v = self@;
        self.metadata.remove(&service_id);
        proof {
            assert(self@ =~= EscrowView { metadata: v.metadata.remove(service_id@), ..v });
        }
        env.publish(Event::MetadataCleared { service_id });
        Ok(())
    }

    /// Registers a service and sets its metadata in one call, publishing only
    /// `svc_reg(service_id, owner)`. Refusals: the pause gate, then the admin
    /// gate.
    pub fn register_service_with_metadata(
        &mut self,
        env: &mut Env,
        service_id: Symbol,
        description: String,
        owner: Address,
    ) -> (r: Result<(), EscrowError>)
        requires
            old(self).wf(),
        ensures
            final(self).wf(),
            match old(self)@.paused_admin_gate(*old(env)) {
                Some(e) => {
                    &&& r == Err::<(), EscrowError>(e)
                    &&& final(self)@ == old(self)@
                    &&& *final(env) == *old(env)
                },
                None => {
                    &&& r == Ok::<(), EscrowError>(())
                    &&& final(self)@ == (EscrowView {
                        registered: old(self)@.registered.insert(service_id@, true),
                        metadata: old(self)@.metadata.insert(
                            service_id@,
                            ServiceMetadata { description, owner },
                        ),
                        ..old(self)@
                    })
                    &&& final(env).publishes(
                        *old(env),
                        seq![Event::ServiceRegistered { service_id, owner }],
                    )
                },
            },
    {
        match self.paused_admin_check(env) {
            Some(e) => { return Err(e); },
            None => {},
        }
        let ghost v = self@;
        self.registered.insert(service_id.duplicate(), true);
        self.metadata.insert(service_id.duplicate(), ServiceMetadata { description, owner });
        proof {
            assert(self@ =~= EscrowView {
                registered: v.registered.insert(service_id@, true),
                metadata: v.metadata.insert(service_id@, ServiceMetadata { description, owner }),
                ..v
            });
        }
        env.publish(Event::ServiceRegistered { service_id, owner });
        Ok(())
    }

    /// Hands a service to a new owner, keeping its description. The current
    /// owner or the admin may call it. Refusals, in order: the pause gate, the
    /// caller's missing authorization, missing metadata, a caller who is
    /// neither owner nor admin, a new owner equal to the current one.
    pub fn transfer_service_ownership(
        &mut self,
        env: &mut Env,
        caller: Address,
        service_id: Symbol,
        new_owner: Address,
    ) -> (r: Result<(), EscrowError>)
        requires
            old(self).wf(),
        ensures
            final(self).wf(),
            match old(self)@.transfer_check(*old(env), caller, service_id@, new_owner) {
                Some(e) => {
                    &&& r == Err::<(), EscrowError>(e)
                    &&& final(self)@ == old(self)@
                    &&& *final(env) == *old(env)
                },
                None => {
                    let m = old(self)@.metadata[service_id@];
                    &&& r == Ok::<(), EscrowError>(())
                    &&& final(self)@ == (EscrowView {
                        metadata: old(self)@.metadata.insert(
                            service_id@,
                            ServiceMetadata { owner: new_owner, ..m },
                        ),
                        ..old(self)@
                    })
                    &&& final(env).publishes(
                        *old(env),
                        seq![Event::OwnerChanged { service_id, old: m.owner, new: new_owner }],
                    )
                },
            },
    {
        if self.paused {
            return Err(EscrowError::ContractPaused);
        }
        match env.require_auth(caller) {
            Err(e) => { return Err(e); },
            Ok(()) => {},
        }
        let current = match self.metadata.get(&service_id) {
            None => { return Err(EscrowError::ServiceMetadataNotFound); },
            Some(m) => m.duplicate(),
        };
        let is_admin = match self.admin {
            Some(a) => a.id == caller.id,
            None => false,
        };
        if current.owner.id != caller.id && !is_admin {
            return Err(EscrowError::NotServiceOwner);
        }
        if current.owner.id == new_owner.id {
            return Err(EscrowError::OwnershipUnchanged);
        }
        let ghost v = self@;
        let old_owner = current.owner;
        let updated = ServiceMetadata { description: current.description, owner: new_owner };
        self.metadata.insert(service_id.duplicate(), updated);
        proof {
            assert(self@ =~= EscrowView {
                metadata: v.metadata.insert(
                    service_id@,
                    ServiceMetadata { owner: new_owner, ..v.metadata[service_id@] },
                ),
                ..v
            });
        }
        env.publish(Event::OwnerChanged { service_id, old: old_owner, new: new_owner });
        Ok(())
    }

    // ── disputes ───────────────────────────────────────────────────────────
    /// The agent opens a dispute over its usage of a service; opening an open
    /// dispute again changes nothing but publishes again. Refusals, in order:
    /// the agent's missing authorization, the pause gate.
    pub fn open_dispute(&mut self, env: &mut Env, agent: Address, service_id: Symbol) -> (r:
        Result<(), EscrowError>)
        requires
            old(self).wf(),
        ensures
            final(self).wf(),
            if !old(env).authorizes(agent) {
                &&& r == Err::<(), EscrowError>(EscrowError::MissingAuth(agent))
                &&& final(self)@ == old(self)@
                &&& *final(env) == *old(env)
            } else if old(self)@.paused {
                &&& r == Err::<(), EscrowError>(EscrowError::ContractPaused)
                &&& final(self)@ == old(self)@
                &&& *final(env) == *old(env)
            } else {
                &&& r == Ok::<(), EscrowError>(())
                &&& final(self)@ == old(self)@.open_dispute_next(agent, service_id)
                &&& final(env).publishes(*old(env), seq![Event::DisputeOpened { agent, service_id }])
            },
    {
        match env.require_auth(agent) {
            Err(e) => { return Err(e); },
            Ok(()) => {},
        }
        if self.paused {
            return Err(EscrowError::ContractPaused);
        }
        let ghost v = self@;
        let list = self.disputes_list(agent);
        if !list_has_symbol(&list, &service_id) {
            let mut grown = list;
            grown.push(service_id.duplicate());
            proof {
                lemma_list_views_insert(self.disputes@, agent, grown);
            }
            self.disputes.insert(agent, grown);
            proof {
                assert(self@ =~= v.open_dispute_next(agent, service_id));
            }
        }
        env.publish(Event::DisputeOpened { agent, service_id });
        Ok(())
    }

    /// Whether the agent holds an open dispute for the service.
    pub fn has_open_dispute(&self, agent: Address, service_id: &Symbol) -> (r: bool)
        requires
            self.wf(),
        ensures
            r == self@.has_dispute(agent, service_id@),
    {
        let list = self.disputes_list(agent);
        list_has_symbol(&list, service_id)
    }

    /// The agent's open disputes in opening order, at most `MAX_BATCH_READ`.
    pub fn list_open_disputes(&self, agent: Address) -> (r: Vec<Symbol>)
        requires
            self.wf(),
        ensures
            r@ == self@.disputes_of(agent).take(
                if self@.disputes_of(agent).len() <= MAX_BATCH_READ {
                    self@.disputes_of(agent).len() as int
                } else {
                    MAX_BATCH_READ as int
                },
            ),
    {
        let list = self.disputes_list(agent);
        let n: usize = if list.len() <= MAX_BATCH_READ as usize {
            list.len()
        } else {
            MAX_BATCH_READ as usize
        };
        let mut r: Vec<Symbol> = Vec::new();
        let mut i: usize = 0;
        while i < n
            invariant
                n <= list@.len(),
                i <= n,
                r@ == list@.take(i as int),
            decreases n - i,
        {
            r.push(list[i].duplicate());
            i = i + 1;
            assert(r@ =~= list@.take(i as int));
        }
        r
    }

    fn resolve_pair(&mut self, agent: Address, service_id: &Symbol, refund: u32) -> (refunded: u32)
        requires
            old(self).wf(),
        ensures
            final(self).wf(),
            refunded == old(self)@.refunded(agent, service_id@, refund),
            final(self)@ == old(self)@.resolve_next(agent, service_id@, refund),
    {
        let ghost v = self@;
        let usage = self.get_usage(agent, service_id);
        let refunded = if refund <= usage {
            refund
        } else {
            usage
        };
        self.usage.insert((agent, service_id.duplicate()), usage - refunded);
        let list = self.disputes_list(agent);
        let kept = list_without_symbol(&list, service_id);
        proof {
            lemma_without_symbol(list@, service_id@);
            lemma_list_views_insert(self.disputes@, agent, kept);
        }
        self.disputes.insert(agent, kept);
        proof {
            assert(self@ =~= v.resolve_next(agent, service_id@, refund));
        }
        refunded
    }

    /// Resolves the agent's open dispute over a service, refunding up to
    /// `refund` requests off its usage; hands back the refund granted.
    /// Refusals, in order: the pause gate, the admin gate, no open dispute.
    pub fn resolve_dispute(
        &mut self,
        env: &mut Env,
        agent: Address,
        service_id: Symbol,
        refund: u32,
    ) -> (r: Result<u32, EscrowError>)
        requires
            old(self).wf(),
        ensures
            final(self).wf(),
            match old(self)@.paused_admin_gate(*old(env)) {
                Some(e) => {
                    &&& r == Err::<u32, EscrowError>(e)
                    &&& final(self)@ == old(self)@
                    &&& *final(env) == *old(env)
                },
                None => if !old(self)@.has_dispute(agent, service_id@) {
                    &&& r == Err::<u32, EscrowError>(EscrowError::DisputeNotOpen)
                    &&& final(self)@ == old(self)@
                    &&& *final(env) == *old(env)
                } else {
                    let refunded = old(self)@.refunded(agent, service_id@, refund);
                    &&& r == Ok::<u32, EscrowError>(refunded)
                    &&& final(self)@ == old(self)@.resolve_next(agent, service_id@, refund)
                    &&& final(env).publishes(
                        *old(env),
                        seq![Event::DisputeResolved { agent, service_id, refunded }],
                    )
                },
            },
    {
        match self.paused_admin_check(env) {
            Some(e) => { return Err(e); },
            None => {},
        }
        if !self.has_open_dispute(agent, &service_id) {
            return Err(EscrowError::DisputeNotOpen);
        }
        let refunded = self.resolve_pair(agent, &service_id, refund);
        env.publish(Event::DisputeResolved { agent, service_id, refunded });
        Ok(refunded)
    }

    /// Resolves, in order, the agent's open disputes over the listed services,
    /// refunding each one's whole usage and publishing one resolution per
    /// refund; services without an open dispute are skipped. At most
    /// `MAX_BATCH_READ` services. Refusals, in order: the pause gate, the
    /// admin gate, a batch that is too large.
    pub fn refund_batch(&mut self, env: &mut Env, agent: Address, services: &Vec<Symbol>) -> (r:
        Result<(), EscrowError>)
        requires
            old(self).wf(),
        ensures
            final(self).wf(),
            match old(self)@.paused_admin_gate(*old(env)) {
                Some(e) => {
                    &&& r == Err::<(), EscrowError>(e)
                    &&& final(self)@ == old(self)@
                    &&& *final(env) == *old(env)
                },
                None => if services@.len() > MAX_BATCH_READ {
                    &&& r == Err::<(), EscrowError>(EscrowError::BatchTooLarge)
                    &&& final(self)@ == old(self)@
                    &&& *final(env) == *old(env)
                } else {
                    let f = old(self)@.refund_fold(agent, services@);
                    &&& r == Ok::<(), EscrowError>(())
                    &&& final(self)@ == f.0
                    &&& final(env).publishes(*old(env), f.1)
                },
            },
    {
        match self.paused_admin_check(env) {
            Some(e) => { return Err(e); },
            None => {},
        }
        if services.len() > MAX_BATCH_READ as usize {
            return Err(EscrowError::BatchTooLarge);
        }
        let ghost v = self@;
        let ghost env0 = *env;
        proof {
            env0.lemma_publishes_nothing();
        }
        let mut i: usize = 0;
        while i < services.len()
            invariant
                self.wf(),
                i <= services@.len(),
                ({
                    let f = v.refund_fold(agent, services@.subrange(0, i as int));
                    &&& self@ == f.0
                    &&& env.publishes(env0, f.1)
                }),
            decreases services@.len() - i,
        {
            let ghost before = services@.subrange(0, i as int);
            proof {
                assert(services@.subrange(0, i + 1).drop_last() =~= before);
                assert(services@.subrange(0, i + 1).last() == services@[i as int]);
            }
            let svc = &services[i];
            if self.has_open_dispute(agent, svc) {
                let ghost env1 = *env;
                let amount = self.get_usage(agent, svc);
                let refunded = self.resolve_pair(agent, svc, amount);
                env.publish(
                    Event::DisputeResolved { agent, service_id: svc.duplicate(), refunded },
                );
                proof {
                    let prev = v.refund_fold(agent, before);
                    let resolved = Event::DisputeResolved { agent, service_id: *svc, refunded };
                    Env::lemma_publishes_trans(env0, env1, *env, prev.1, seq![resolved]);
                    assert(prev.1 + seq![resolved] =~= prev.1.push(resolved));
                }
            }
            i = i + 1;
        }
        proof {
            assert(services@.subrange(0, services@.len() as int) =~= services@);
        }
        Ok(())
    }
}

} // verus!
