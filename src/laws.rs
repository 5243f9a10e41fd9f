//! Properties of the cache protocol and of the default policies that hold
//! for every input.

use vstd::prelude::*;
use crate::address::{Address, is_web_scheme, opt_text};
use crate::cache::{SlotModel, StatusModel, access_step, cancel_step, complete_step};
use crate::coordinator::{ActionModel, Phase, after_check, rules_allow};
use crate::policy::{Except, Policy, Strict};
use crate::rules::Origin;

verus! {

/// The cache and the statuses returned after the requests `waiters` access
/// the host `host`, whose `robots.txt` location is `location`, one after the
/// other from the cache `m`.
pub open spec fn access_all(
    m: Map<Seq<char>, SlotModel>,
    host: Seq<char>,
    location: Option<Seq<char>>,
    waiters: Seq<u64>,
) -> (Map<Seq<char>, SlotModel>, Seq<StatusModel>)
    decreases waiters.len(),
{
    if waiters.len() == 0 {
        (m, Seq::empty())
    } else {
        let (m1, statuses) = access_all(m, host, location, waiters.drop_last());
        let (m2, s) = access_step(m1, host, location, waiters.last());
        (m2, statuses.push(s))
    }
}

/// Single flight: when requests access a host that has no entry and a
/// `robots.txt` location, the first becomes the one fetcher and every other
/// one waits; when the fetcher stores its rules, exactly the others are woken,
/// and from then on every access returns those rules.
pub proof fn single_flight(
    m: Map<Seq<char>, SlotModel>,
    host: Seq<char>,
    location: Seq<char>,
    waiters: Seq<u64>,
    rules: Origin,
)
    requires
        !m.contains_key(host),
        waiters.len() >= 1,
    ensures
        ({
            let (m1, statuses) = access_all(m, host, Some(location), waiters);
            &&& statuses.len() == waiters.len()
            &&& statuses[0] == StatusModel::Fetching(location)
            &&& forall|i: int| 1 <= i < statuses.len() ==> statuses[i] == StatusModel::Pending
            &&& m1 == m.insert(host, SlotModel::InFlight(waiters.subrange(1, waiters.len() as int)))
            &&& complete_step(m1, host, rules) == Some(
                (
                    m.insert(host, SlotModel::Ready(rules)),
                    waiters.subrange(1, waiters.len() as int),
                ),
            )
        }),
    decreases waiters.len(),
{
    let n = waiters.len() as int;
    if n == 1 {
        assert(waiters.drop_last().len() == 0);
        assert(waiters.subrange(1, 1) =~= Seq::<u64>::empty());
    } else {
        single_flight(m, host, location, waiters.drop_last(), rules);
        let (m0, s0) = access_all(m, host, Some(location), waiters.drop_last());
        assert(waiters.drop_last().subrange(1, n - 1).push(waiters.last()) =~= waiters.subrange(
            1,
            n,
        ));
        assert(m0.insert(host, SlotModel::InFlight(waiters.subrange(1, n))) =~= m.insert(
            host,
            SlotModel::InFlight(waiters.subrange(1, n)),
        ));
    }
    let (m1, _) = access_all(m, host, Some(location), waiters);
    assert(m1.insert(host, SlotModel::Ready(rules)) =~= m.insert(host, SlotModel::Ready(rules)));
}

/// Cache reuse: once a host's rules are ready, every later access returns
/// the same rules, never asks for a fetch and leaves the cache as it is; and
/// neither storing nor abandoning a fetch can change the entry.
pub proof fn ready_is_final(
    m: Map<Seq<char>, SlotModel>,
    host: Seq<char>,
    location: Option<Seq<char>>,
    waiters: Seq<u64>,
    rules: Origin,
    other: Origin,
)
    requires
        m.contains_key(host),
        m[host] == SlotModel::Ready(rules),
    ensures
        ({
            let (m1, statuses) = access_all(m, host, location, waiters);
            &&& m1 == m
            &&& statuses.len() == waiters.len()
            &&& forall|i: int| 0 <= i < statuses.len() ==> statuses[i] == StatusModel::Ready(rules)
        }),
        complete_step(m, host, other).is_none(),
        cancel_step(m, host).is_none(),
    decreases waiters.len(),
{
    if waiters.len() > 0 {
        ready_is_final(m, host, location, waiters.drop_last(), rules, other);
    }
}

/// Cancellation releases the lock: abandoning the fetch in flight for a host
/// removes its entry and wakes its waiters, and the next request for the host
/// becomes its new fetcher.
pub proof fn cancel_releases(
    m: Map<Seq<char>, SlotModel>,
    host: Seq<char>,
    location: Seq<char>,
    waiter: u64,
)
    requires
        m.contains_key(host),
        m[host] matches SlotModel::InFlight(_),
    ensures
        ({
            let ws = m[host]->InFlight_0;
            let m1 = m.remove(host);
            &&& cancel_step(m, host) == Some((m1, ws))
            &&& !m1.contains_key(host)
            &&& access_step(m1, host, Some(location), waiter) == (
                m1.insert(host, SlotModel::InFlight(Seq::empty())),
                StatusModel::Fetching(location),
            )
        }),
{
}

/// Bypass: the default policies never check a request whose address does not
/// use a web scheme, so it is dispatched without consulting the cache.
pub proof fn bypass_non_web(strict: &Strict, except: &Except, addr: &Address)
    requires
        !is_web_scheme(opt_text(addr.scheme)),
    ensures
        !strict.checks(addr),
        !except.checks(addr),
{
}

/// Denial: under the strict policy a request with ready rules is dispatched
/// exactly when the rules allow its path, and is denied otherwise.
pub proof fn strict_follows_rules(strict: &Strict, addr: &Address, rules: Origin)
    ensures
        after_check(strict, addr, StatusModel::Ready(rules)) == (if rules_allow(
            rules,
            opt_text(addr.path),
        ) {
            (Phase::Dispatching, ActionModel::Dispatch)
        } else {
            (Phase::Denied, ActionModel::Deny)
        }),
{
}

} // verus!
