//! The exclusion cache: per-host state of `robots.txt` retrieval, with the
//! single-flight protocol that lets exactly one request fetch for a host
//! while every other request for it waits.

use std::sync::Arc;
use vstd::prelude::*;
use crate::address::{Address, robots_location_of};
use crate::rules::{Origin, RuleSet};

verus! {

/// Mathematical form of a host's cache entry.
pub enum SlotModel {
    /// A fetch is in flight; the waiters to wake when it resolves.
    InFlight(Seq<u64>),
    /// The rules are parsed and final.
    Ready(Origin),
}

/// Mathematical form of a [`Status`].
pub enum StatusModel {
    Unmatched,
    Fetching(Seq<char>),
    Pending,
    Ready(Origin),
}

/// What an access to the cache tells the request that made it.
#[derive(Debug)]
pub enum Status {
    /// No `robots.txt` location can be derived: nothing is checked.
    Unmatched,
    /// The caller is the fetcher: it retrieves the document at this address.
    Fetching(String),
    /// Another request is fetching; the caller waits to be woken.
    Pending,
    /// The parsed rules of the host, shared with every request to it.
    Ready(Arc<RuleSet>),
}

impl View for Status {
    type V = StatusModel;

    open spec fn view(&self) -> StatusModel {
        match self {
            Status::Unmatched => StatusModel::Unmatched,
            Status::Fetching(location) => StatusModel::Fetching(location@),
            Status::Pending => StatusModel::Pending,
            Status::Ready(rules) => StatusModel::Ready(rules@),
        }
    }
}

/// Raised where the coordination protocol was broken: a fetch completed or
/// abandoned for a host that has none in flight.
#[derive(Debug, Clone, Copy, PartialEq, Eq)]
pub struct InvariantViolation;

/// The entry that an access leaves and the status it returns, for the host
/// `host` whose `robots.txt` location is `location`, from a request that
/// would be woken as `waiter`.
pub open spec fn access_step(
    m: Map<Seq<char>, SlotModel>,
    host: Seq<char>,
    location: Option<Seq<char>>,
    waiter: u64,
) -> (Map<Seq<char>, SlotModel>, StatusModel) {
    if !m.contains_key(host) {
        match location {
            Some(l) => (m.insert(host, SlotModel::InFlight(Seq::empty())), StatusModel::Fetching(l)),
            None => (m, StatusModel::Unmatched),
        }
    } else {
        match m[host] {
            SlotModel::InFlight(ws) => (
                m.insert(host, SlotModel::InFlight(ws.push(waiter))),
                StatusModel::Pending,
            ),
            SlotModel::Ready(o) => (m, StatusModel::Ready(o)),
        }
    }
}

/// The entry that an access for the address `addr` leaves and the status it
/// returns: an address without a host is never checked.
pub open spec fn access_outcome(m: Map<Seq<char>, SlotModel>, addr: &Address, waiter: u64) -> (
    Map<Seq<char>, SlotModel>,
    StatusModel,
) {
    match addr.host {
        None => (m, StatusModel::Unmatched),
        Some(host) => access_step(m, host@, robots_location_of(addr.text@), waiter),
    }
}

/// Storing the rules `o` for a host with a fetch in flight: the new map and
/// the waiters to wake; `None` where no fetch is in flight.
pub open spec fn complete_step(m: Map<Seq<char>, SlotModel>, host: Seq<char>, o: Origin) -> Option<
    (Map<Seq<char>, SlotModel>, Seq<u64>),
> {
    if m.contains_key(host) {
        match m[host] {
            SlotModel::InFlight(ws) => Some((m.insert(host, SlotModel::Ready(o)), ws)),
            SlotModel::Ready(_) => None,
        }
    } else {
        None
    }
}

/// Abandoning the fetch in flight for a host: the entry goes, and its
/// waiters are woken to retry; `None` where no fetch is in flight.
pub open spec fn cancel_step(m: Map<Seq<char>, SlotModel>, host: Seq<char>) -> Option<
    (Map<Seq<char>, SlotModel>, Seq<u64>),
> {
    if m.contains_key(host) {
        match m[host] {
            SlotModel::InFlight(ws) => Some((m.remove(host), ws)),
            SlotModel::Ready(_) => None,
        }
    } else {
        None
    }
}

/// Relies on `Arc::clone`: the new handle points to the same value.
#[verifier::external_body]
fn share(rules: &Arc<RuleSet>) -> (r: Arc<RuleSet>)
    ensures
        *r == **rules,
{
    Arc::clone(rules)
}

#[derive(Debug)]
enum Slot {
    InFlight(Vec<u64>),
    Ready(Arc<RuleSet>),
}

impl Slot {
    spec fn model(&self) -> SlotModel {
        match self {
            Slot::InFlight(ws) => SlotModel::InFlight(ws@),
            Slot::Ready(rules) => SlotModel::Ready(rules@),
        }
    }
}

#[derive(Debug)]
struct Entry {
    host: String,
    slot: Slot,
}

/// Cache of the retrieved and parsed `robots.txt` rules, keyed by host.
pub struct Cache {
    user_agent: String,
    entries: Vec<Entry>,
    model: Ghost<Map<Seq<char>, SlotModel>>,
}

impl View for Cache {
    type V = Map<Seq<char>, SlotModel>;

    closed spec fn view(&self) -> Map<Seq<char>, SlotModel> {
        self.model@
    }
}

impl Cache {
    /// The entries are keyed by distinct hosts, and the map is what they hold.
    pub closed spec fn wf(&self) -> bool {
        &&& forall|i: int, j: int|
            0 <= i < self.entries@.len() && 0 <= j < self.entries@.len() && i != j
                ==> self.entries@[i].host@ != self.entries@[j].host@
        &&& forall|i: int|
            0 <= i < self.entries@.len() ==> #[trigger] self.model@.contains_key(
                self.entries@[i].host@,
            ) && self.model@[self.entries@[i].host@] == self.entries@[i].slot.model()
        &&& forall|h: Seq<char>|
            #[trigger] self.model@.contains_key(h) ==> exists|i: int|
                0 <= i < self.entries@.len() && self.entries@[i].host@ == h
    }

    /// The user agent that fetched documents are parsed for.
    pub closed spec fn agent(&self) -> Seq<char> {
        self.user_agent@
    }

    /// An empty cache whose rules are parsed for `user_agent`.
    pub fn new(user_agent: &str) -> (r: Cache)
        ensures
            r.wf(),
            r@ == Map::<Seq<char>, SlotModel>::empty(),
            r.agent() == user_agent@,
    {
        Cache {
            user_agent: user_agent.to_owned(),
            entries: Vec::new(),
            model: Ghost(Map::empty()),
        }
    }

    /// The user agent that fetched documents are parsed for.
    pub fn user_agent(&self) -> (r: &str)
        ensures
            r@ == self.agent(),
    {
        self.user_agent.as_str()
    }

    fn find(&self, host: &String) -> (r: Option<usize>)
        requires
            self.wf(),
        ensures
            match r {
                Some(i) => i < self.entries@.len() && self.entries@[i as int].host@ == host@,
                None => !self@.contains_key(host@),
            },
    {
        let mut i: usize = 0;
        while i < self.entries.len()
            invariant
                self.wf(),
                i <= self.entries@.len(),
                forall|k: int| 0 <= k < i ==> self.entries@[k].host@ != host@,
            decreases self.entries@.len() - i,
        {
            if self.entries[i].host == *host {
                return Some(i);
            }
            i = i + 1;
        }
        None
    }

    fn detach(&mut self, i: usize) -> (e: Entry)
        requires
            old(self).wf(),
            i < old(self).entries@.len(),
        ensures
            final(self).wf(),
            e == old(self).entries@[i as int],
            final(self)@ == old(self)@.remove(e.host@),
            old(self)@.contains_key(e.host@),
            old(self)@[e.host@] == e.slot.model(),
            final(self).agent() == old(self).agent(),
    {
        let ghost before = self.entries@;
        assert(self.model@.contains_key(before[i as int].host@));
        let e = self.entries.remove(i);
        self.model = Ghost(self.model@.remove(e.host@));
        assert forall|h: Seq<char>| #[trigger] self.model@.contains_key(h) implies exists|k: int|
            0 <= k < self.entries@.len() && self.entries@[k].host@ == h by {
            let k = choose|k: int| 0 <= k < before.len() && before[k].host@ == h;
            if k < i {
                assert(self.entries@[k] == before[k]);
            } else {
                assert(k != i);
                assert(self.entries@[k - 1] == before[k]);
            }
        }
        assert forall|k: int| 0 <= k < self.entries@.len() implies #[trigger] self.model@.contains_key(
            self.entries@[k].host@,
        ) && self.model@[self.entries@[k].host@] == self.entries@[k].slot.model() by {
            if k < i {
                assert(self.entries@[k] == before[k]);
            } else {
                assert(self.entries@[k] == before[k + 1]);
            }
        }
        assert forall|a: int, b: int|
            0 <= a < self.entries@.len() && 0 <= b < self.entries@.len() && a != b
            implies self.entries@[a].host@ != self.entries@[b].host@ by {
            let a0 = if a < i { a } else { a + 1 };
            let b0 = if b < i { b } else { b + 1 };
            assert(self.entries@[a] == before[a0]);
            assert(self.entries@[b] == before[b0]);
        }
        e
    }

    fn attach(&mut self, e: Entry)
        requires
            old(self).wf(),
            !old(self)@.contains_key(e.host@),
        ensures
            final(self).wf(),
            final(self)@ == old(self)@.insert(e.host@, e.slot.model()),
            final(self).agent() == old(self).agent(),
    {
        let ghost before = self.entries@;
        let ghost key = e.host@;
        let ghost slot = e.slot.model();
        self.entries.push(e);
        self.model = Ghost(self.model@.insert(key, slot));
        assert forall|h: Seq<char>| #[trigger] self.model@.contains_key(h) implies exists|k: int|
            0 <= k < self.entries@.len() && self.entries@[k].host@ == h by {
            if h == key {
                assert(self.entries@[before.len() as int].host@ == h);
            } else {
                let k = choose|k: int| 0 <= k < before.len() && before[k].host@ == h;
                assert(self.entries@[k] == before[k]);
            }
        }
        assert forall|k: int| 0 <= k < self.entries@.len() implies #[trigger] self.model@.contains_key(
            self.entries@[k].host@,
        ) && self.model@[self.entries@[k].host@] == self.entries@[k].slot.model() by {
            if k < before.len() {
                assert(self.entries@[k] == before[k]);
                assert(before[k].host@ != key);
            }
        }
        assert forall|a: int, b: int|
            0 <= a < self.entries@.len() && 0 <= b < self.entries@.len() && a != b
            implies self.entries@[a].host@ != self.entries@[b].host@ by {
            if a < before.len() {
                assert(self.entries@[a] == before[a]);
                assert(old(self).model@.contains_key(before[a].host@));
            }
            if b < before.len() {
                assert(self.entries@[b] == before[b]);
                assert(old(self).model@.contains_key(before[b].host@));
            }
        }
    }

    /// Consults the cache for the host of `addr`, on behalf of a request that
    /// is woken as `waiter` should it have to wait. Without an entry for the
    /// host the caller becomes its fetcher, where a `robots.txt` location can
    /// be derived; with a fetch in flight the caller is registered as a
    /// waiter; with rules ready it gets them.
    pub fn access(&mut self, addr: &Address, waiter: u64) -> (r: Status)
        requires
            old(self).wf(),
        ensures
            final(self).wf(),
            final(self).agent() == old(self).agent(),
            (final(self)@, r@) == access_outcome(old(self)@, addr, waiter),
    {
        match &addr.host {
            None => Status::Unmatched,
            Some(host) => match self.find(host) {
                None => match addr.robots_location() {
                    Some(location) => {
                        self.attach(Entry { host: host.clone(), slot: Slot::InFlight(Vec::new()) });
                        Status::Fetching(location)
                    },
                    None => Status::Unmatched,
                },
                Some(i) => {
                    proof {
                        assert(self.model@.contains_key(self.entries@[i as int].host@));
                    }
                    if let Slot::Ready(rules) = &self.entries[i].slot {
                        return Status::Ready(share(rules));
                    }
                    let e = self.detach(i);
                    match e.slot {
                        Slot::InFlight(waiters) => {
                            let mut waiters = waiters;
                            waiters.push(waiter);
                            self.attach(Entry { host: e.host, slot: Slot::InFlight(waiters) });
                            Status::Pending
                        },
                        Slot::Ready(_) => {
                            proof {
                                assert(false);
                            }
                            Status::Pending
                        },
                    }
                },
            },
        }
    }

    /// Stores the rules that the fetcher for `host` retrieved and hands back
    /// the requests waiting on them, to be woken. Fails, changing nothing,
    /// where no fetch is in flight for the host.
    pub fn complete(&mut self, host: &String, rules: RuleSet) -> (r: Result<
        Vec<u64>,
        InvariantViolation,
    >)
        requires
            old(self).wf(),
        ensures
            final(self).wf(),
            final(self).agent() == old(self).agent(),
            match r {
                Ok(waiters) => complete_step(old(self)@, host@, rules@) == Some(
                    (final(self)@, waiters@),
                ),
                Err(_) => complete_step(old(self)@, host@, rules@).is_none() && final(self)@
                    == old(self)@,
            },
    {
        match self.find(host) {
            None => Err(InvariantViolation),
            Some(i) => {
                proof {
                    assert(self.model@.contains_key(self.entries@[i as int].host@));
                }
                if let Slot::Ready(_) = &self.entries[i].slot {
                    return Err(InvariantViolation);
                }
                let e = self.detach(i);
                match e.slot {
                    Slot::InFlight(waiters) => {
                        self.attach(Entry { host: e.host, slot: Slot::Ready(Arc::new(rules)) });
                        Ok(waiters)
                    },
                    Slot::Ready(_) => {
                        proof {
                            assert(false);
                        }
                        Err(InvariantViolation)
                    },
                }
            },
        }
    }

    /// Abandons the fetch in flight for `host`: the entry goes, so that a
    /// later request can fetch again, and the requests that waited on it are
    /// handed back, to be woken. Fails, changing nothing, where no fetch is
    /// in flight for the host.
    pub fn cancel(&mut self, host: &String) -> (r: Result<Vec<u64>, InvariantViolation>)
        requires
            old(self).wf(),
        ensures
            final(self).wf(),
            final(self).agent() == old(self).agent(),
            match r {
                Ok(waiters) => cancel_step(old(self)@, host@) == Some((final(self)@, waiters@)),
                Err(_) => cancel_step(old(self)@, host@).is_none() && final(self)@ == old(self)@,
            },
    {
        match self.find(host) {
            None => Err(InvariantViolation),
            Some(i) => {
                proof {
                    assert(self.model@.contains_key(self.entries@[i as int].host@));
                }
                if let Slot::Ready(_) = &self.entries[i].slot {
                    return Err(InvariantViolation);
                }
                let e = self.detach(i);
                match e.slot {
                    Slot::InFlight(waiters) => Ok(waiters),
                    Slot::Ready(_) => {
                        proof {
                            assert(false);
                        }
                        Err(InvariantViolation)
                    },
                }
            },
        }
    }
}

} // verus!
