//! The host around the escrow: the ledger clock, which addresses authorized
//! the current call, and the log of published events.
use crate::error::EscrowError;
use crate::events::Event;
use crate::types::Address;
use vstd::prelude::*;

verus! {

/// The ledger clock, the call's authorizations and the published events.
pub struct Env {
    timestamp: u64,
    all_authorized: bool,
    signers: Vec<Address>,
    events: Vec<Event>,
    issued_count: u64,
}

impl Env {
    /// The ledger timestamp, in seconds.
    pub closed spec fn now(&self) -> u64 {
        self.timestamp
    }

    /// Whether `a` authorized the current call.
    pub closed spec fn authorizes(&self, a: Address) -> bool {
        self.all_authorized || self.signers@.contains(a)
    }

    /// The events published so far, oldest first.
    pub closed spec fn log(&self) -> Seq<Event> {
        self.events@
    }

    /// The id that `generate_address` hands out next: one more than the
    /// number of addresses handed out so far.
    pub closed spec fn fresh_id(&self) -> int {
        self.issued_count + 1
    }

    /// Every address this host has handed out so far: it numbers them upward
    /// from 1, and `fresh_id` is the next number.
    pub open spec fn issued(&self) -> Set<Address> {
        Set::new(|a: Address| 1 <= a.id < self.fresh_id())
    }

    /// `self` is `before` with `es` published after its events: the clock,
    /// the authorizations and the next generated address are as they were.
    pub open spec fn publishes(&self, before: Env, es: Seq<Event>) -> bool {
        &&& self.now() == before.now()
        &&& forall|a: Address| #[trigger] self.authorizes(a) == before.authorizes(a)
        &&& self.fresh_id() == before.fresh_id()
        &&& self.log() == before.log() + es
    }

    /// A fresh host: clock at zero, no authorizations, no events, and the
    /// first generated address numbered 1.
    pub fn new() -> (env: Env)
        ensures
            env.now() == 0,
            env.log() == Seq::<Event>::empty(),
            forall|a: Address| !env.authorizes(a),
            env.fresh_id() == 1,
            env.issued() == Set::<Address>::empty(),
    {
        let env = Env {
            timestamp: 0,
            all_authorized: false,
            signers: Vec::new(),
            events: Vec::new(),
            issued_count: 0,
        };
        proof {
            assert(env.issued() =~= Set::<Address>::empty());
        }
        env
    }

    /// The ledger timestamp.
    pub fn timestamp(&self) -> (t: u64)
        ensures
            t == self.now(),
    {
        self.timestamp
    }

    /// Sets the ledger timestamp.
    pub fn set_timestamp(&mut self, t: u64)
        ensures
            final(self).now() == t,
            final(self).log() == old(self).log(),
            forall|a: Address| final(self).authorizes(a) == old(self).authorizes(a),
            final(self).fresh_id() == old(self).fresh_id(),
    {
        self.timestamp = t;
    }

    /// From now on every address counts as having authorized every call.
    pub fn mock_all_auths(&mut self)
        ensures
            final(self).now() == old(self).now(),
            final(self).log() == old(self).log(),
            forall|a: Address| final(self).authorizes(a),
            final(self).fresh_id() == old(self).fresh_id(),
    {
        self.all_authorized = true;
    }

    /// From now on exactly the addresses in `signers` count as authorized.
    pub fn set_auths(&mut self, signers: Vec<Address>)
        ensures
            final(self).now() == old(self).now(),
            final(self).log() == old(self).log(),
            forall|a: Address| final(self).authorizes(a) == signers@.contains(a),
            final(self).fresh_id() == old(self).fresh_id(),
    {
        self.all_authorized = false;
        self.signers = signers;
    }

    /// A fresh address, distinct from every address this host handed out
    /// before: the host numbers its addresses upward, and every other call
    /// on it keeps the next number.
    pub fn generate_address(&mut self) -> (a: Address)
        requires
            old(self).fresh_id() <= u64::MAX,
        ensures
            a.id == old(self).fresh_id(),
            !old(self).issued().contains(a),
            final(self).issued() == old(self).issued().insert(a),
            final(self).fresh_id() == old(self).fresh_id() + 1,
            final(self).now() == old(self).now(),
            final(self).log() == old(self).log(),
            forall|b: Address| final(self).authorizes(b) == old(self).authorizes(b),
    {
        let a = Address { id: self.issued_count + 1 };
        self.issued_count = self.issued_count + 1;
        proof {
            let before = old(self).issued();
            let after = self.issued();
            assert forall|b: Address| #[trigger] after.contains(b) == before.insert(a).contains(b) by {
                if b.id == a.id {
                    assert(b == a);
                }
            }
            assert(after =~= before.insert(a));
        }
        a
    }

    /// The events published so far, oldest first.
    pub fn events(&self) -> (r: &Vec<Event>)
        ensures
            r@ == self.log(),
    {
        &self.events
    }

    /// Forgets the events published so far.
    pub fn clear_events(&mut self)
        ensures
            final(self).now() == old(self).now(),
            final(self).log() == Seq::<Event>::empty(),
            forall|a: Address| final(self).authorizes(a) == old(self).authorizes(a),
            final(self).fresh_id() == old(self).fresh_id(),
    {
        self.events = Vec::new();
    }

    /// Checks that `a` authorized the current call.
    pub fn require_auth(&self, a: Address) -> (r: Result<(), EscrowError>)
        ensures
            r == (if self.authorizes(a) {
                Ok(())
            } else {
                Err(EscrowError::MissingAuth(a))
            }),
    {
        if self.all_authorized {
            return Ok(());
        }
        let mut i: usize = 0;
        while i < self.signers.len()
            invariant
                i <= self.signers@.len(),
                !self.all_authorized,
                forall|j: int| 0 <= j < i ==> self.signers@[j] != a,
            decreases self.signers@.len() - i,
        {
            if self.signers[i].id == a.id {
                return Ok(());
            }
            i = i + 1;
        }
        Err(EscrowError::MissingAuth(a))
    }

    /// Publishes `e`.
    pub fn publish(&mut self, e: Event)
        ensures
            final(self).publishes(*old(self), seq![e]),
    {
        self.events.push(e);
        assert(self.events@ =~= old(self).events@ + seq![e]);
    }

    /// Publishing events changes neither the clock, nor the authorizations,
    /// nor the next generated address, and only appends to the log.
    pub proof fn lemma_publishes_keeps_host(&self, before: Env, es: Seq<Event>)
        requires
            self.publishes(before, es),
        ensures
            self.now() == before.now(),
            forall|a: Address| self.authorizes(a) == before.authorizes(a),
            self.log() == before.log() + es,
            self.fresh_id() == before.fresh_id(),
    {
    }

    /// Publishing `s1` and then `s2` publishes `s1 + s2`.
    pub proof fn lemma_publishes_trans(a: Env, b: Env, c: Env, s1: Seq<Event>, s2: Seq<Event>)
        requires
            b.publishes(a, s1),
            c.publishes(b, s2),
        ensures
            c.publishes(a, s1 + s2),
    {
        assert(c.events@ =~= a.events@ + (s1 + s2));
    }

    /// Publishes nothing: the state of the host that `publishes` relates to itself.
    pub proof fn lemma_publishes_nothing(&self)
        ensures
            self.publishes(*self, Seq::<Event>::empty()),
    {
        assert(self.events@ + Seq::<Event>::empty() =~= self.events@);
    }
}

/// Moves the ledger clock `seconds` forward.
pub fn advance_ledger(env: &mut Env, seconds: u64)
    requires
        old(env).now() + seconds <= u64::MAX,
    ensures
        final(env).now() == old(env).now() + seconds,
        final(env).log() == old(env).log(),
        forall|a: Address| final(env).authorizes(a) == old(env).authorizes(a),
        final(env).fresh_id() == old(env).fresh_id(),
{
    let t = env.timestamp() + seconds;
    env.set_timestamp(t);
}

} // verus!
