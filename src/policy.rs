//! Policies: whether a request is checked at all, and the final decision
//! given what the fetched rules say of it.

use vstd::prelude::*;
use crate::address::{Address, is_web_scheme, opt_text};
use crate::rules::{Origin, RuleSet, robots_verdict, texts};

verus! {

/// Decides which requests are checked against the fetched rules, and whether
/// a checked request goes out.
pub trait Policy {
    /// Whether requests to `req` are matched against the fetched rules.
    spec fn checks(&self, req: &Address) -> bool;

    /// Whether a request to `req` goes out, where `matched` tells whether the
    /// fetched rules allow it.
    spec fn permits(&self, req: &Address, matched: bool) -> bool;

    fn needs_check(&self, req: &Address) -> (r: bool)
        ensures
            r == self.checks(req),
    ;

    fn decide(&self, req: &Address, matched: bool) -> (r: bool)
        ensures
            r == self.permits(req, matched),
    ;
}

/// Whether an address is checked by default: when it uses a web scheme.
pub open spec fn checked_by_default(req: &Address) -> bool {
    is_web_scheme(opt_text(req.scheme))
}

/// Follows the fetched rules exactly, for every address with a web scheme.
#[derive(Debug, Clone, Copy, Default)]
pub struct Strict;

impl Policy for Strict {
    open spec fn checks(&self, req: &Address) -> bool {
        checked_by_default(req)
    }

    open spec fn permits(&self, req: &Address, matched: bool) -> bool {
        matched
    }

    fn needs_check(&self, req: &Address) -> (r: bool) {
        req.is_network()
    }

    fn decide(&self, req: &Address, matched: bool) -> (r: bool) {
        matched
    }
}

/// Builds an [`Except`] policy from lists of allowed and disallowed paths.
#[derive(Debug, Clone, Default)]
pub struct ExceptBuilder {
    allow: Vec<String>,
    disallow: Vec<String>,
}

impl ExceptBuilder {
    /// The patterns allowed so far.
    pub closed spec fn allowed(&self) -> Seq<Seq<char>> {
        texts(self.allow@)
    }

    /// The patterns disallowed so far.
    pub closed spec fn disallowed(&self) -> Seq<Seq<char>> {
        texts(self.disallow@)
    }

    /// A builder with no exceptions.
    pub fn new() -> (r: ExceptBuilder)
        ensures
            r.allowed() == Seq::<Seq<char>>::empty(),
            r.disallowed() == Seq::<Seq<char>>::empty(),
    {
        let r = ExceptBuilder { allow: Vec::new(), disallow: Vec::new() };
        assert(r.allowed() =~= Seq::<Seq<char>>::empty());
        assert(r.disallowed() =~= Seq::<Seq<char>>::empty());
        r
    }

    /// Adds a path pattern that is allowed whatever the fetched rules say.
    pub fn allow(self, path: &str) -> (r: ExceptBuilder)
        ensures
            r.allowed() == self.allowed().push(path@),
            r.disallowed() == self.disallowed(),
    {
        let mut b = self;
        b.allow.push(path.to_owned());
        assert(texts(b.allow@) =~= texts(self.allow@).push(path@));
        b
    }

    /// Adds a path pattern that is disallowed whatever the fetched rules say.
    pub fn disallow(self, path: &str) -> (r: ExceptBuilder)
        ensures
            r.allowed() == self.allowed(),
            r.disallowed() == self.disallowed().push(path@),
    {
        let mut b = self;
        b.disallow.push(path.to_owned());
        assert(texts(b.disallow@) =~= texts(self.disallow@).push(path@));
        b
    }

    /// The policy holding these exceptions.
    pub fn build(self) -> (r: Except)
        ensures
            r.rules() == Origin::Exceptions(self.allowed(), self.disallowed()),
    {
        Except::new(RuleSet::from_exceptions(self.allow, self.disallow))
    }
}

/// The verdict of the exception rules `rules` on an optional path.
pub open spec fn exception_verdict(rules: Origin, path: Option<Seq<char>>) -> Option<bool> {
    match path {
        Some(p) => robots_verdict(rules, p),
        None => None,
    }
}

/// Follows the fetched rules, except on the paths that its own rules match:
/// there its own rules decide.
#[derive(Debug)]
pub struct Except {
    inner: RuleSet,
}

impl Except {
    /// The exception rules.
    pub closed spec fn rules(&self) -> Origin {
        self.inner@
    }

    /// A policy whose exceptions are the rules `inner`.
    pub fn new(inner: RuleSet) -> (r: Except)
        ensures
            r.rules() == inner@,
    {
        Except { inner }
    }

    /// A builder with no exceptions.
    pub fn builder() -> (r: ExceptBuilder)
        ensures
            r.allowed() == Seq::<Seq<char>>::empty(),
            r.disallowed() == Seq::<Seq<char>>::empty(),
    {
        ExceptBuilder::new()
    }
}

impl From<RuleSet> for Except {
    fn from(value: RuleSet) -> (r: Except)
        ensures
            r.rules() == value@,
    {
        Except { inner: value }
    }
}

impl vstd::std_specs::convert::FromSpecImpl<RuleSet> for Except {
    open spec fn obeys_from_spec() -> bool {
        true
    }

    closed spec fn from_spec(v: RuleSet) -> Except {
        Except { inner: v }
    }
}

impl Policy for Except {
    open spec fn checks(&self, req: &Address) -> bool {
        checked_by_default(req)
    }

    open spec fn permits(&self, req: &Address, matched: bool) -> bool {
        match exception_verdict(self.rules(), opt_text(req.path)) {
            Some(b) => b,
            None => matched,
        }
    }

    fn needs_check(&self, req: &Address) -> (r: bool) {
        req.is_network()
    }

    fn decide(&self, req: &Address, matched: bool) -> (r: bool) {
        let path = match &req.path {
            Some(p) => Some(p.as_str()),
            None => None,
        };
        match self.inner.verdict(path) {
            Some(b) => b,
            None => matched,
        }
    }
}

} // verus!
