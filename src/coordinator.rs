//! The per-request state machine that checks, fetches, waits and dispatches.
//!
//! The coordinator makes every decision; its driver performs the actions it
//! returns (sending the `robots.txt` request or the original one, suspending
//! until woken) and reports back what came of them.

use vstd::prelude::*;
use crate::address::{Address, opt_text};
use crate::cache::{
    Cache, InvariantViolation, Status, StatusModel, access_outcome, cancel_step,
    complete_step,
};
use crate::policy::Policy;
use crate::rules::{Origin, RuleSet, robots_allow};

verus! {

/// Where a request stands.
#[derive(Debug, Clone, Copy, PartialEq, Eq, Structural)]
pub enum Phase {
    /// It consults the cache.
    Checking,
    /// It fetches its host's `robots.txt` document for every request to it.
    Fetching,
    /// It is handed to the transport.
    Dispatching,
    /// It was refused by the policy; it never reaches the transport.
    Denied,
}

/// What the driver of a coordinator does next.
#[derive(Debug)]
pub enum Action {
    /// Send the original request.
    Dispatch,
    /// Retrieve the `robots.txt` document at this address with a `GET`.
    Fetch(String),
    /// Suspend until woken, then check again.
    Wait,
    /// Fail the request as denied by the policy.
    Deny,
}

/// Mathematical form of an [`Action`].
pub enum ActionModel {
    Dispatch,
    Fetch(Seq<char>),
    Wait,
    Deny,
}

impl View for Action {
    type V = ActionModel;

    open spec fn view(&self) -> ActionModel {
        match self {
            Action::Dispatch => ActionModel::Dispatch,
            Action::Fetch(location) => ActionModel::Fetch(location@),
            Action::Wait => ActionModel::Wait,
            Action::Deny => ActionModel::Deny,
        }
    }
}

/// Whether the rules `o` allow a request with this path and query; one
/// without a path cannot be matched and is allowed.
pub open spec fn rules_allow(o: Origin, path: Option<Seq<char>>) -> bool {
    match path {
        Some(p) => robots_allow(o, p),
        None => true,
    }
}

/// The phase and the action that follow the status `s` of a check of `addr`.
pub open spec fn after_check<P: Policy>(policy: &P, addr: &Address, s: StatusModel) -> (
    Phase,
    ActionModel,
) {
    match s {
        StatusModel::Unmatched => (Phase::Dispatching, ActionModel::Dispatch),
        StatusModel::Fetching(l) => (Phase::Fetching, ActionModel::Fetch(l)),
        StatusModel::Pending => (Phase::Checking, ActionModel::Wait),
        StatusModel::Ready(o) => if policy.permits(addr, rules_allow(o, opt_text(addr.path))) {
            (Phase::Dispatching, ActionModel::Dispatch)
        } else {
            (Phase::Denied, ActionModel::Deny)
        },
    }
}

/// Drives one request through checking, fetching, waiting and dispatching.
#[derive(Debug)]
pub struct Coordinator {
    phase: Phase,
    address: Address,
    waiter: u64,
}

impl Coordinator {
    /// The phase the request is in.
    pub closed spec fn phase(&self) -> Phase {
        self.phase
    }

    /// The address the request goes to.
    pub closed spec fn target(&self) -> Address {
        self.address
    }

    /// The number under which the request waits to be woken.
    pub closed spec fn waiter(&self) -> u64 {
        self.waiter
    }

    /// A request in the fetching phase has a host to fetch for.
    pub closed spec fn wf(&self) -> bool {
        self.phase == Phase::Fetching ==> self.address.host.is_some()
    }

    /// Starts a request to `address` that is woken as `waiter`: checked if
    /// the policy checks its address, dispatched at once otherwise.
    pub fn new<P: Policy>(policy: &P, address: Address, waiter: u64) -> (r: Coordinator)
        ensures
            r.wf(),
            r.phase() == (if policy.checks(&address) {
                Phase::Checking
            } else {
                Phase::Dispatching
            }),
            r.target() == address,
            r.waiter() == waiter,
    {
        let phase = if policy.needs_check(&address) {
            Phase::Checking
        } else {
            Phase::Dispatching
        };
        Coordinator { phase, address, waiter }
    }

    /// The phase the request is in.
    pub fn state(&self) -> (r: Phase)
        ensures
            r == self.phase(),
    {
        self.phase
    }

    /// The address the request goes to.
    pub fn address(&self) -> (r: &Address)
        ensures
            *r == self.target(),
    {
        &self.address
    }

    /// Consults the cache and decides: dispatch where nothing can be
    /// checked, fetch where this request is the first for its host, wait
    /// where another request fetches, and otherwise dispatch or deny as the
    /// policy decides on what the rules say of the path.
    pub fn check<P: Policy>(&mut self, cache: &mut Cache, policy: &P) -> (a: Action)
        requires
            old(self).wf(),
            old(self).phase() == Phase::Checking,
            old(cache).wf(),
        ensures
            final(self).wf(),
            final(cache).wf(),
            final(cache).agent() == old(cache).agent(),
            final(self).target() == old(self).target(),
            final(self).waiter() == old(self).waiter(),
            ({
                let (m, s) = access_outcome(old(cache)@, &old(self).target(), old(self).waiter());
                &&& final(cache)@ == m
                &&& (final(self).phase(), a@) == after_check(policy, &old(self).target(), s)
            }),
    {
        let status = cache.access(&self.address, self.waiter);
        match status {
            Status::Unmatched => {
                self.phase = Phase::Dispatching;
                Action::Dispatch
            },
            Status::Fetching(location) => {
                self.phase = Phase::Fetching;
                Action::Fetch(location)
            },
            Status::Pending => Action::Wait,
            Status::Ready(rules) => {
                let path = match &self.address.path {
                    Some(p) => Some(p.as_str()),
                    None => None,
                };
                let matched = rules.matches(path);
                if policy.decide(&self.address, matched) {
                    self.phase = Phase::Dispatching;
                    Action::Dispatch
                } else {
                    self.phase = Phase::Denied;
                    Action::Deny
                }
            },
        }
    }

    /// Stores the rules this request fetched, returns the requests waiting on
    /// them to be woken, and goes back to checking.
    pub fn fetched(&mut self, cache: &mut Cache, rules: RuleSet) -> (r: Result<
        Vec<u64>,
        InvariantViolation,
    >)
        requires
            old(self).wf(),
            old(self).phase() == Phase::Fetching,
            old(cache).wf(),
        ensures
            final(self).wf(),
            final(cache).wf(),
            final(cache).agent() == old(cache).agent(),
            final(self).phase() == Phase::Checking,
            final(self).target() == old(self).target(),
            final(self).waiter() == old(self).waiter(),
            ({
                let host = old(self).target().host.unwrap()@;
                match r {
                    Ok(waiters) => complete_step(old(cache)@, host, rules@) == Some(
                        (final(cache)@, waiters@),
                    ),
                    Err(_) => complete_step(old(cache)@, host, rules@).is_none() && final(cache)@
                        == old(cache)@,
                }
            }),
    {
        self.phase = Phase::Checking;
        match &self.address.host {
            Some(host) => cache.complete(host, rules),
            None => Err(InvariantViolation),
        }
    }

    /// Releases the fetch this request holds, if it holds one, as when it is
    /// dropped: the host's entry goes so that another request can fetch, and
    /// the requests waiting on it are returned to be woken.
    pub fn abandon(&mut self, cache: &mut Cache) -> (r: Result<Vec<u64>, InvariantViolation>)
        requires
            old(self).wf(),
            old(cache).wf(),
        ensures
            final(self).wf(),
            final(cache).wf(),
            final(cache).agent() == old(cache).agent(),
            final(self).target() == old(self).target(),
            final(self).waiter() == old(self).waiter(),
            old(self).phase() != Phase::Fetching ==> final(self).phase() == old(self).phase()
                && final(cache)@ == old(cache)@ && (r matches Ok(w) && w@.len() == 0),
            old(self).phase() == Phase::Fetching ==> final(self).phase() == Phase::Checking && ({
                let host = old(self).target().host.unwrap()@;
                match r {
                    Ok(waiters) => cancel_step(old(cache)@, host) == Some(
                        (final(cache)@, waiters@),
                    ),
                    Err(_) => cancel_step(old(cache)@, host).is_none() && final(cache)@
                        == old(cache)@,
                }
            }),
    {
        if self.phase != Phase::Fetching {
            return Ok(Vec::new());
        }
        self.phase = Phase::Checking;
        match &self.address.host {
            Some(host) => cache.cancel(host),
            None => Err(InvariantViolation),
        }
    }
}

} // verus!
