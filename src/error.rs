//! The error of a request that the policy refused.

use vstd::prelude::*;

verus! {

/// A request refused by the `robots.txt` rules and the policy; it never
/// reached the transport.
#[derive(Debug, Clone, Default)]
pub struct Denied {
    pattern: Option<String>,
}

impl Denied {
    /// The pattern that refused the request, where it is known.
    pub closed spec fn pattern_of(&self) -> Option<String> {
        self.pattern
    }

    /// A denial whose pattern is not known.
    pub fn new() -> (r: Denied)
        ensures
            r.pattern_of().is_none(),
    {
        Denied { pattern: None }
    }

    /// A denial by the pattern `pattern`.
    pub fn with_pattern(pattern: &str) -> (r: Denied)
        ensures
            r.pattern_of() matches Some(p) && p@ == pattern@,
    {
        Denied { pattern: Some(pattern.to_owned()) }
    }

    /// The pattern that refused the request, where it is known.
    pub fn pattern(&self) -> (r: Option<&str>)
        ensures
            match r {
                Some(p) => self.pattern_of() matches Some(q) && p@ == q@,
                None => self.pattern_of().is_none(),
            },
    {
        match &self.pattern {
            Some(p) => Some(p.as_str()),
            None => None,
        }
    }

    /// What the error says.
    pub fn message(&self) -> (r: String)
        ensures
            r@ == "access disallowed by the `robots.txt` file"@,
    {
        proof {
            reveal_strlit("access disallowed by the `robots.txt` file");
        }
        "access disallowed by the `robots.txt` file".to_owned()
    }
}

} // verus!
