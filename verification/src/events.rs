//! Events that entrypoints publish, and the short topic symbols they carry.
//!
//! Every topic is a short symbol of at most nine characters; indexers match
//! on these names, so they are kept stable.
use crate::types::{is_symbol_char, Address, Symbol};
use vstd::prelude::*;

verus! {

/// The topic symbols under which events are published.
#[derive(Clone, Copy, PartialEq, Eq, Structural, Debug)]
pub enum Topic {
    Usage,
    UsageHi,
    UsageDec,
    Settled,
    SettlAll,
    PriceSet,
    PriceRmv,
    TiersSet,
    TiersRm,
    Paused,
    SvcReg,
    SvcAdd,
    SvcRm,
    SvcDis,
    CfgSet,
    BndSet,
    AgtAlw,
    AgtBlk,
    RateRst,
    AlertThr,
    ReqReg,
    AdminCan,
    AdminChg,
    AdminPrp,
    MetaSet,
    MetaClr,
    OwnerChg,
    CredDeb,
    Dispute,
    Open,
    Resolve,
}

/// The symbol that a topic is published as.
pub open spec fn topic_name(t: Topic) -> Seq<char> {
    match t {
        Topic::Usage => "usage"@,
        Topic::UsageHi => "usage_hi"@,
        Topic::UsageDec => "usage_dec"@,
        Topic::Settled => "settled"@,
        Topic::SettlAll => "settl_all"@,
        Topic::PriceSet => "price_set"@,
        Topic::PriceRmv => "price_rmv"@,
        Topic::TiersSet => "tiers_set"@,
        Topic::TiersRm => "tiers_rm"@,
        Topic::Paused => "paused"@,
        Topic::SvcReg => "svc_reg"@,
        Topic::SvcAdd => "svc_add"@,
        Topic::SvcRm => "svc_rm"@,
        Topic::SvcDis => "svc_dis"@,
        Topic::CfgSet => "cfg_set"@,
        Topic::BndSet => "bnd_set"@,
        Topic::AgtAlw => "agt_alw"@,
        Topic::AgtBlk => "agt_blk"@,
        Topic::RateRst => "rate_rst"@,
        Topic::AlertThr => "alert_thr"@,
        Topic::ReqReg => "req_reg"@,
        Topic::AdminCan => "admin_can"@,
        Topic::AdminChg => "admin_chg"@,
        Topic::AdminPrp => "admin_prp"@,
        Topic::MetaSet => "meta_set"@,
        Topic::MetaClr => "meta_clr"@,
        Topic::OwnerChg => "owner_chg"@,
        Topic::CredDeb => "cred_deb"@,
        Topic::Dispute => "dispute"@,
        Topic::Open => "open"@,
        Topic::Resolve => "resolve"@,
    }
}

impl Topic {
    /// The symbol this topic is published as.
    pub fn name(&self) -> (s: &'static str)
        ensures
            s@ == topic_name(*self),
    {
        match self {
            Topic::Usage => "usage",
            Topic::UsageHi => "usage_hi",
            Topic::UsageDec => "usage_dec",
            Topic::Settled => "settled",
            Topic::SettlAll => "settl_all",
            Topic::PriceSet => "price_set",
            Topic::PriceRmv => "price_rmv",
            Topic::TiersSet => "tiers_set",
            Topic::TiersRm => "tiers_rm",
            Topic::Paused => "paused",
            Topic::SvcReg => "svc_reg",
            Topic::SvcAdd => "svc_add",
            Topic::SvcRm => "svc_rm",
            Topic::SvcDis => "svc_dis",
            Topic::CfgSet => "cfg_set",
            Topic::BndSet => "bnd_set",
            Topic::AgtAlw => "agt_alw",
            Topic::AgtBlk => "agt_blk",
            Topic::RateRst => "rate_rst",
            Topic::AlertThr => "alert_thr",
            Topic::ReqReg => "req_reg",
            Topic::AdminCan => "admin_can",
            Topic::AdminChg => "admin_chg",
            Topic::AdminPrp => "admin_prp",
            Topic::MetaSet => "meta_set",
            Topic::MetaClr => "meta_clr",
            Topic::OwnerChg => "owner_chg",
            Topic::CredDeb => "cred_deb",
            Topic::Dispute => "dispute",
            Topic::Open => "open",
            Topic::Resolve => "resolve",
        }
    }
}

/// A short symbol: at most nine symbol characters.
pub open spec fn is_short_symbol(s: Seq<char>) -> bool {
    &&& s.len() <= 9
    &&& forall|i: int| 0 <= i < s.len() ==> is_symbol_char(#[trigger] s[i])
}

/// The names of the settings that a `cfg_set` event reports.
#[derive(Clone, Copy, PartialEq, Eq, Structural, Debug)]
pub enum ConfigName {
    MaxCall,
    MinCall,
    MaxWin,
    WinSec,
    Allowlist,
    ReqReg,
}

/// The symbol a setting is reported under.
pub open spec fn config_name(n: ConfigName) -> Seq<char> {
    match n {
        ConfigName::MaxCall => "max_call"@,
        ConfigName::MinCall => "min_call"@,
        ConfigName::MaxWin => "max_win"@,
        ConfigName::WinSec => "win_sec"@,
        ConfigName::Allowlist => "allowlist"@,
        ConfigName::ReqReg => "req_reg"@,
    }
}

impl ConfigName {
    /// The symbol this setting is reported under.
    pub fn name(&self) -> (s: &'static str)
        ensures
            s@ == config_name(*self),
    {
        match self {
            ConfigName::MaxCall => "max_call",
            ConfigName::MinCall => "min_call",
            ConfigName::MaxWin => "max_win",
            ConfigName::WinSec => "win_sec",
            ConfigName::Allowlist => "allowlist",
            ConfigName::ReqReg => "req_reg",
        }
    }
}

/// The new value of a setting, as a `cfg_set` event reports it.
#[derive(Clone, Copy, PartialEq, Eq, Structural, Debug)]
pub enum ConfigValue {
    U32(u32),
    U64(u64),
    Bool(bool),
}

/// One published event and its payload.
#[derive(Clone, Debug, PartialEq, Eq)]
pub enum Event {
    /// `usage(agent, service_id, delta, new_total)`
    Usage { agent: Address, service_id: Symbol, requests: u32, total: u32 },
    /// `usage_dec(agent, service_id, amount, new_total)`
    UsageDecremented { agent: Address, service_id: Symbol, amount: u32, total: u32 },
    /// `settled(agent, service_id, drained_requests, billed)`
    Settled { agent: Address, service_id: Symbol, requests: u32, billed: i128 },
    /// `settl_all(agent, total_billed)`
    SettledAll { agent: Address, total: i128 },
    /// `price_set(service_id, price)`
    PriceSet { service_id: Symbol, price: i128 },
    /// `price_rmv(service_id)`
    PriceRemoved { service_id: Symbol },
    /// `tiers_set(service_id)`
    TiersSet { service_id: Symbol },
    /// `tiers_rm(service_id)`
    TiersRemoved { service_id: Symbol },
    /// `paused(flag)`
    Paused { paused: bool },
    /// `svc_reg(service_id, owner)`
    ServiceRegistered { service_id: Symbol, owner: Address },
    /// `svc_add(service_id)`
    ServiceAdded { service_id: Symbol },
    /// `svc_rm(service_id)`
    ServiceRemoved { service_id: Symbol },
    /// `svc_dis(service_id, disabled)`
    ServiceDisabled { service_id: Symbol, disabled: bool },
    /// `cfg_set(name, value)`
    ConfigSet { name: ConfigName, value: ConfigValue },
    /// `bnd_set(min_stroops, max_stroops)`
    PriceBoundsSet { min: i128, max: i128 },
    /// `agt_alw(agent, allowed)`
    AgentAllowed { agent: Address, allowed: bool },
    /// `agt_blk(agent, blocked)`
    AgentBlocked { agent: Address, blocked: bool },
    /// `rate_rst(agent)`
    RateWindowReset { agent: Address },
    /// `admin_can(admin, cancelled_pending)`
    AdminTransferCancelled { admin: Address, pending: Address },
    /// `admin_chg(old_admin, new_admin)`
    AdminChanged { old: Address, new: Address },
    /// `admin_prp(admin, proposed)`
    AdminProposed { admin: Address, proposed: Address },
    /// `meta_clr(service_id)`
    MetadataCleared { service_id: Symbol },
    /// `owner_chg(service_id, old_owner, new_owner)`
    OwnerChanged { service_id: Symbol, old: Address, new: Address },
    /// `cred_deb(agent, debit, new_balance)`
    CreditDebited { agent: Address, debit: i128, balance: i128 },
    /// `dispute("open", agent, service_id)`
    DisputeOpened { agent: Address, service_id: Symbol },
    /// `dispute("resolve", agent, service_id, refunded)`
    DisputeResolved { agent: Address, service_id: Symbol, refunded: u32 },
}

/// The topic an event is published under.
pub open spec fn event_topic(e: Event) -> Topic {
    match e {
        Event::Usage { .. } => Topic::Usage,
        Event::UsageDecremented { .. } => Topic::UsageDec,
        Event::Settled { .. } => Topic::Settled,
        Event::SettledAll { .. } => Topic::SettlAll,
        Event::PriceSet { .. } => Topic::PriceSet,
        Event::PriceRemoved { .. } => Topic::PriceRmv,
        Event::TiersSet { .. } => Topic::TiersSet,
        Event::TiersRemoved { .. } => Topic::TiersRm,
        Event::Paused { .. } => Topic::Paused,
        Event::ServiceRegistered { .. } => Topic::SvcReg,
        Event::ServiceAdded { .. } => Topic::SvcAdd,
        Event::ServiceRemoved { .. } => Topic::SvcRm,
        Event::ServiceDisabled { .. } => Topic::SvcDis,
        Event::ConfigSet { .. } => Topic::CfgSet,
        Event::PriceBoundsSet { .. } => Topic::BndSet,
        Event::AgentAllowed { .. } => Topic::AgtAlw,
        Event::AgentBlocked { .. } => Topic::AgtBlk,
        Event::RateWindowReset { .. } => Topic::RateRst,
        Event::AdminTransferCancelled { .. } => Topic::AdminCan,
        Event::AdminChanged { .. } => Topic::AdminChg,
        Event::AdminProposed { .. } => Topic::AdminPrp,
        Event::MetadataCleared { .. } => Topic::MetaClr,
        Event::OwnerChanged { .. } => Topic::OwnerChg,
        Event::CreditDebited { .. } => Topic::CredDeb,
        Event::DisputeOpened { .. } => Topic::Dispute,
        Event::DisputeResolved { .. } => Topic::Dispute,
    }
}

impl Event {
    /// The topic this event is published under.
    pub fn topic(&self) -> (t: Topic)
        ensures
            t == event_topic(*self),
    {
        match self {
            Event::Usage { .. } => Topic::Usage,
            Event::UsageDecremented { .. } => Topic::UsageDec,
            Event::Settled { .. } => Topic::Settled,
            Event::SettledAll { .. } => Topic::SettlAll,
            Event::PriceSet { .. } => Topic::PriceSet,
            Event::PriceRemoved { .. } => Topic::PriceRmv,
            Event::TiersSet { .. } => Topic::TiersSet,
            Event::TiersRemoved { .. } => Topic::TiersRm,
            Event::Paused { .. } => Topic::Paused,
            Event::ServiceRegistered { .. } => Topic::SvcReg,
            Event::ServiceAdded { .. } => Topic::SvcAdd,
            Event::ServiceRemoved { .. } => Topic::SvcRm,
            Event::ServiceDisabled { .. } => Topic::SvcDis,
            Event::ConfigSet { .. } => Topic::CfgSet,
            Event::PriceBoundsSet { .. } => Topic::BndSet,
            Event::AgentAllowed { .. } => Topic::AgtAlw,
            Event::AgentBlocked { .. } => Topic::AgtBlk,
            Event::RateWindowReset { .. } => Topic::RateRst,
            Event::AdminTransferCancelled { .. } => Topic::AdminCan,
            Event::AdminChanged { .. } => Topic::AdminChg,
            Event::AdminProposed { .. } => Topic::AdminPrp,
            Event::MetadataCleared { .. } => Topic::MetaClr,
            Event::OwnerChanged { .. } => Topic::OwnerChg,
            Event::CreditDebited { .. } => Topic::CredDeb,
            Event::DisputeOpened { .. } => Topic::Dispute,
            Event::DisputeResolved { .. } => Topic::Dispute,
        }
    }

    /// For a dispute event, the action symbol that leads its payload.
    pub fn dispute_action(&self) -> (t: Option<Topic>)
        ensures
            t == (match *self {
                Event::DisputeOpened { .. } => Some(Topic::Open),
                Event::DisputeResolved { .. } => Some(Topic::Resolve),
                _ => None,
            }),
    {
        match self {
            Event::DisputeOpened { .. } => Some(Topic::Open),
            Event::DisputeResolved { .. } => Some(Topic::Resolve),
            _ => None,
        }
    }
}

/// Every topic, and every setting name, is a short symbol of at most nine
/// symbol characters, so it fits a short-symbol encoding.
pub proof fn lemma_topic_names_are_short_symbols(t: Topic, n: ConfigName)
    ensures
        is_short_symbol(topic_name(t)),
        is_short_symbol(config_name(n)),
{
    reveal_strlit("usage");
    reveal_strlit("usage_hi");
    reveal_strlit("usage_dec");
    reveal_strlit("settled");
    reveal_strlit("settl_all");
    reveal_strlit("price_set");
    reveal_strlit("price_rmv");
    reveal_strlit("tiers_set");
    reveal_strlit("tiers_rm");
    reveal_strlit("paused");
    reveal_strlit("svc_reg");
    reveal_strlit("svc_add");
    reveal_strlit("svc_rm");
    reveal_strlit("svc_dis");
    reveal_strlit("cfg_set");
    reveal_strlit("bnd_set");
    reveal_strlit("agt_alw");
    reveal_strlit("agt_blk");
    reveal_strlit("rate_rst");
    reveal_strlit("alert_thr");
    reveal_strlit("req_reg");
    reveal_strlit("admin_can");
    reveal_strlit("admin_chg");
    reveal_strlit("admin_prp");
    reveal_strlit("meta_set");
    reveal_strlit("meta_clr");
    reveal_strlit("owner_chg");
    reveal_strlit("cred_deb");
    reveal_strlit("dispute");
    reveal_strlit("open");
    reveal_strlit("resolve");
    reveal_strlit("max_call");
    reveal_strlit("min_call");
    reveal_strlit("max_win");
    reveal_strlit("win_sec");
    reveal_strlit("allowlist");
}

} // verus!
