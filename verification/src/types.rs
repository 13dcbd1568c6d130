//! The plain values that the escrow works on: account addresses, service
//! symbols, price tiers, service metadata and the records that entrypoints
//! hand back.
use crate::table::TableKey;
use vstd::prelude::*;

verus! {

/// Largest number of items a batch entrypoint reads or returns in one call.
pub const MAX_BATCH_READ: u32 = 50;

/// The contract's code version, reported by `version`.
pub const CONTRACT_VERSION: u32 = 2;

/// Storage schema version of a contract deployed before schema stamping.
pub const SCHEMA_VERSION_LEGACY: u32 = 1;

/// Storage schema version that `init` stamps and `migrate_v1_to_v2` reaches.
pub const SCHEMA_VERSION_CURRENT: u32 = 2;

/// Longest symbol a service id may be.
pub const MAX_SYMBOL_LEN: usize = 32;

/// An account: an agent, a service owner or the admin.
#[derive(Clone, Copy, PartialEq, Eq, Structural, Debug, Hash)]
pub struct Address {
    pub id: u64,
}

impl View for Address {
    type V = Address;

    open spec fn view(&self) -> Address {
        *self
    }
}

impl TableKey for Address {
    fn same_key(&self, other: &Self) -> (b: bool) {
        self.id == other.id
    }
}

impl Address {
    pub fn new(id: u64) -> (a: Address)
        ensures
            a.id == id,
    {
        Address { id }
    }
}

/// A character that may stand in a symbol: an ASCII letter, digit or `_`.
pub open spec fn is_symbol_char(c: char) -> bool {
    ('a' <= c && c <= 'z') || ('A' <= c && c <= 'Z') || ('0' <= c && c <= '9') || c == '_'
}

/// A valid symbol: at most `MAX_SYMBOL_LEN` symbol characters.
pub open spec fn is_valid_symbol(s: Seq<char>) -> bool {
    &&& s.len() <= MAX_SYMBOL_LEN
    &&& forall|i: int| 0 <= i < s.len() ==> is_symbol_char(#[trigger] s[i])
}

/// A short name; service ids are symbols.
#[derive(Clone, Debug, PartialEq, Eq, Hash)]
pub struct Symbol {
    name: String,
}

impl View for Symbol {
    type V = Seq<char>;

    closed spec fn view(&self) -> Seq<char> {
        self.name@
    }
}

impl TableKey for Symbol {
    fn same_key(&self, other: &Self) -> (b: bool) {
        self.name == other.name
    }
}

impl Symbol {
    /// Makes a symbol from its name.
    pub fn new(name: &str) -> (s: Symbol)
        requires
            is_valid_symbol(name@),
        ensures
            s@ == name@,
    {
        Symbol { name: String::from_str(name) }
    }

    /// Makes a symbol from `name` when `name` is a valid symbol: at most
    /// `MAX_SYMBOL_LEN` characters, each an ASCII letter, digit or `_`.
    pub fn try_new(name: &str) -> (r: Option<Symbol>)
        ensures
            match r {
                Some(s) => is_valid_symbol(name@) && s@ == name@,
                None => !is_valid_symbol(name@),
            },
    {
        let len = name.unicode_len();
        if len > MAX_SYMBOL_LEN {
            return None;
        }
        let mut i: usize = 0;
        while i < len
            invariant
                len == name@.len(),
                i <= len,
                forall|j: int| 0 <= j < i ==> is_symbol_char(#[trigger] name@[j]),
            decreases len - i,
        {
            let c = name.get_char(i);
            let ok = ('a' <= c && c <= 'z') || ('A' <= c && c <= 'Z') || ('0' <= c && c <= '9')
                || c == '_';
            if !ok {
                return None;
            }
            i = i + 1;
        }
        Some(Symbol { name: String::from_str(name) })
    }

    /// Makes a symbol that owns `name`.
    pub fn from_string(name: String) -> (s: Symbol)
        requires
            is_valid_symbol(name@),
        ensures
            s@ == name@,
    {
        Symbol { name }
    }

    /// The symbol's name.
    pub fn as_str(&self) -> (r: &str)
        ensures
            r@ == self@,
    {
        self.name.as_str()
    }

    /// A second symbol equal to this one.
    pub fn duplicate(&self) -> (r: Symbol)
        ensures
            r == *self,
    {
        Symbol { name: self.name.clone() }
    }
}

impl TableKey for (Address, Symbol) {
    fn same_key(&self, other: &Self) -> (b: bool) {
        self.0.id == other.0.id && self.1.same_key(&other.1)
    }
}

/// Copies a list of symbols.
pub fn duplicate_symbols(v: &Vec<Symbol>) -> (r: Vec<Symbol>)
    ensures
        r@ == v@,
{
    let mut r: Vec<Symbol> = Vec::new();
    let mut i: usize = 0;
    while i < v.len()
        invariant
            i <= v@.len(),
            r@ == v@.subrange(0, i as int),
        decreases v@.len() - i,
    {
        r.push(v[i].duplicate());
        i = i + 1;
        assert(r@ =~= v@.subrange(0, i as int));
    }
    assert(v@.subrange(0, v@.len() as int) =~= v@);
    r
}

/// One step of a volume price schedule: from `min_requests` accumulated
/// requests on, every request costs `price_per_request` stroops.
#[derive(Clone, Copy, PartialEq, Eq, Structural, Debug)]
pub struct PriceTier {
    pub min_requests: u32,
    pub price_per_request: i128,
}

/// Copies a list of price tiers.
pub fn duplicate_tiers(v: &Vec<PriceTier>) -> (r: Vec<PriceTier>)
    ensures
        r@ == v@,
{
    let mut r: Vec<PriceTier> = Vec::new();
    let mut i: usize = 0;
    while i < v.len()
        invariant
            i <= v@.len(),
            r@ == v@.subrange(0, i as int),
        decreases v@.len() - i,
    {
        r.push(v[i]);
        i = i + 1;
        assert(r@ =~= v@.subrange(0, i as int));
    }
    assert(v@.subrange(0, v@.len() as int) =~= v@);
    r
}

/// What a service says of itself, and who owns it.
#[derive(Clone, Debug, PartialEq, Eq)]
pub struct ServiceMetadata {
    pub description: String,
    pub owner: Address,
}

impl ServiceMetadata {
    /// A second copy of the metadata, equal to this one.
    pub fn duplicate(&self) -> (r: ServiceMetadata)
        ensures
            r == *self,
    {
        ServiceMetadata { description: self.description.clone(), owner: self.owner }
    }
}

/// What `record_usage` hands back: the pair and its new accumulated total.
#[derive(Clone, Debug, PartialEq, Eq)]
pub struct UsageRecord {
    pub agent: Address,
    pub service_id: Symbol,
    pub requests: u32,
}

/// Every global setting in one read.
#[derive(Clone, Copy, PartialEq, Eq, Structural, Debug)]
pub struct ContractConfig {
    pub paused: bool,
    pub allowlist_enabled: bool,
    pub require_service_registration: bool,
    pub max_requests_per_call: u32,
    pub min_requests_per_call: u32,
    pub max_requests_per_window: u32,
    pub window_seconds: u64,
    pub schema_version: u32,
    pub admin: Option<Address>,
}

/// Usage, price and bill of one (agent, service) pair in one read.
#[derive(Clone, Copy, PartialEq, Eq, Structural, Debug)]
pub struct BillingSummary {
    pub requests: u32,
    pub price_stroops: i128,
    pub billed: i128,
    pub last_settlement: Option<u64>,
}

} // verus!
