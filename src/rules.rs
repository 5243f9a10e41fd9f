//! Classification of a `robots.txt` retrieval and the parsed rule sets.

use vstd::prelude::*;
use robotxt::{AccessResult, GroupBuilder, Robots, ALL_UAS};

verus! {

#[verifier::external_type_specification]
#[verifier::external_body]
pub struct ExRobots(Robots);

/// Outcome of one attempt to retrieve a `robots.txt` document.
#[derive(Debug, Clone, PartialEq, Eq)]
pub enum Access {
    /// The document was retrieved; it carries the body bytes.
    Successful(Vec<u8>),
    /// The redirect chain was exhausted without reaching the document.
    Redirect,
    /// The server answered that the document is not available.
    Unavailable,
    /// The server could not be reached or failed.
    Unreachable,
}

/// Mathematical form of an [`Access`].
pub enum AccessModel {
    Successful(Seq<u8>),
    Redirect,
    Unavailable,
    Unreachable,
}

impl View for Access {
    type V = AccessModel;

    open spec fn view(&self) -> AccessModel {
        match self {
            Access::Successful(body) => AccessModel::Successful(body@),
            Access::Redirect => AccessModel::Redirect,
            Access::Unavailable => AccessModel::Unavailable,
            Access::Unreachable => AccessModel::Unreachable,
        }
    }
}

/// The status code of a response, read as informational or successful.
pub open spec fn is_success_code(code: u16) -> bool {
    100 <= code <= 299
}

pub open spec fn is_redirect_code(code: u16) -> bool {
    300 <= code <= 399
}

/// The explicit "too many requests" status.
pub const TOO_MANY_REQUESTS: u16 = 429;

/// The access category of a retrieval: `code` is the response status, or
/// `None` where the transport failed before any status was received.
pub open spec fn category(code: Option<u16>, body: Seq<u8>) -> AccessModel {
    match code {
        None => AccessModel::Unavailable,
        Some(c) => if is_success_code(c) {
            AccessModel::Successful(body)
        } else if is_redirect_code(c) {
            AccessModel::Redirect
        } else if c == TOO_MANY_REQUESTS || (500 <= c <= 599) {
            AccessModel::Unreachable
        } else {
            AccessModel::Unavailable
        },
    }
}

/// Classifies a retrieval: informational and success statuses carry the body
/// (empty when none was read), redirections count as an exhausted redirect
/// chain, client errors as unavailable, server errors and "too many
/// requests" as unreachable, and anything else, a transport failure
/// included, as unavailable.
pub fn classify(code: Option<u16>, body: Option<Vec<u8>>) -> (r: Access)
    ensures
        r@ == category(
            code,
            match body {
                Some(b) => b@,
                None => Seq::<u8>::empty(),
            },
        ),
{
    match code {
        None => Access::Unavailable,
        Some(c) => if 100 <= c && c <= 299 {
            match body {
                Some(b) => Access::Successful(b),
                None => Access::Successful(Vec::new()),
            }
        } else if 300 <= c && c <= 399 {
            Access::Redirect
        } else if c == TOO_MANY_REQUESTS || (500 <= c && c <= 599) {
            Access::Unreachable
        } else {
            Access::Unavailable
        },
    }
}

/// Mathematical form of a rule set: what it was parsed from.
pub enum Origin {
    /// Rules derived from a retrieval outcome for a user agent.
    Fetched(AccessModel, Seq<char>),
    /// Rules built from explicit allow and disallow path patterns.
    Exceptions(Seq<Seq<char>>, Seq<Seq<char>>),
}

/// The text of each string of a list.
pub open spec fn texts(v: Seq<String>) -> Seq<Seq<char>> {
    v.map_values(|s: String| s@)
}

/// What `Robots::try_is_relative_allowed` answers for `path` on the rules
/// parsed from `origin`: `None` where no rule matches.
pub uninterp spec fn robots_verdict(origin: Origin, path: Seq<char>) -> Option<bool>;

/// Whether the rules parsed from `origin` allow `path`: as the matching rule
/// says, and allowed where no rule matches.
pub open spec fn robots_allow(origin: Origin, path: Seq<char>) -> bool {
    match robots_verdict(origin, path) {
        Some(b) => b,
        None => true,
    }
}

#[derive(Debug)]
enum Source {
    Fetched(Access, String),
    Exceptions(Vec<String>, Vec<String>),
}

/// Parsed `robots.txt` rules for one host, immutable once made.
#[derive(Debug)]
pub struct RuleSet {
    robots: Robots,
    source: Source,
}

impl View for RuleSet {
    type V = Origin;

    closed spec fn view(&self) -> Origin {
        self.source.origin()
    }
}

impl Source {
    spec fn origin(&self) -> Origin {
        match *self {
            Source::Fetched(access, agent) => Origin::Fetched(access@, agent@),
            Source::Exceptions(allow, disallow) => Origin::Exceptions(
                texts(allow@),
                texts(disallow@),
            ),
        }
    }
}

/// Relies on `Robots::from_access`: the rules for a retrieval outcome, the
/// body parsed for a successful one.
#[verifier::external_body]
fn parse_access(access: Access, agent: &str) -> (r: RuleSet)
    ensures
        r@ == Origin::Fetched(access@, agent@),
{
    let result = match &access {
        Access::Successful(body) => AccessResult::Successful(body),
        Access::Redirect => AccessResult::Redirect,
        Access::Unavailable => AccessResult::Unavailable,
        Access::Unreachable => AccessResult::Unreachable,
    };
    let robots = Robots::from_access(result, agent);
    RuleSet { robots, source: Source::Fetched(access, agent.to_string()) }
}

#[verifier::external_type_specification]
#[verifier::external_body]
pub struct ExGroupBuilder(GroupBuilder);

/// Relies on `GroupBuilder::allow`: adds an `Allow` directive.
#[verifier::external_body]
fn group_allow(group: GroupBuilder, rule: &str) -> GroupBuilder {
    group.allow(rule)
}

/// Relies on `GroupBuilder::disallow`: adds a `Disallow` directive.
#[verifier::external_body]
fn group_disallow(group: GroupBuilder, rule: &str) -> GroupBuilder {
    group.disallow(rule)
}

/// Adds every allow pattern, then every disallow pattern, to a group.
pub(crate) fn add_rules(group: GroupBuilder, allow: &Vec<String>, disallow: &Vec<String>) -> GroupBuilder {
    let mut group = group;
    let mut i: usize = 0;
    while i < allow.len()
        invariant
            i <= allow.len(),
        decreases allow.len() - i,
    {
        group = group_allow(group, allow[i].as_str());
        i = i + 1;
    }
    let mut j: usize = 0;
    while j < disallow.len()
        invariant
            j <= disallow.len(),
        decreases disallow.len() - j,
    {
        group = group_disallow(group, disallow[j].as_str());
        j = j + 1;
    }
    group
}

/// Relies on `RobotsBuilder::group` and `RobotsBuilder::parse`: one group for
/// every user agent holding the given patterns, rendered and parsed.
#[verifier::external_body]
fn build_exceptions(allow: Vec<String>, disallow: Vec<String>) -> (r: RuleSet)
    ensures
        r@ == Origin::Exceptions(texts(allow@), texts(disallow@)),
{
    let robots = Robots::builder()
        .group([ALL_UAS], |group| add_rules(group, &allow, &disallow))
        .parse(ALL_UAS);
    RuleSet { robots, source: Source::Exceptions(allow, disallow) }
}

/// Relies on `Robots::is_relative_allowed`, which is the verdict of
/// `try_is_relative_allowed`, allowed where no rule matches.
/// `Robots::from_access` makes rules that allow everything of a redirect or
/// an unavailable document, and nothing of an unreachable one.
#[verifier::external_body]
fn robots_allows(rules: &RuleSet, path: &str) -> (r: bool)
    ensures
        r == robots_allow(rules@, path@),
        rules@ matches Origin::Fetched(AccessModel::Redirect, _) ==> r,
        rules@ matches Origin::Fetched(AccessModel::Unavailable, _) ==> r,
        rules@ matches Origin::Fetched(AccessModel::Unreachable, _) ==> !r,
{
    rules.robots.is_relative_allowed(path)
}

/// Relies on `Robots::try_is_relative_allowed`: the verdict of the rule that
/// matches `path`, if any does. `Robots::from_access` makes rules that allow
/// everything of a redirect or an unavailable document, and nothing of an
/// unreachable one.
#[verifier::external_body]
fn robots_try_allows(rules: &RuleSet, path: &str) -> (r: Option<bool>)
    ensures
        r == robots_verdict(rules@, path@),
        rules@ matches Origin::Fetched(AccessModel::Redirect, _) ==> r == Some(true),
        rules@ matches Origin::Fetched(AccessModel::Unavailable, _) ==> r == Some(true),
        rules@ matches Origin::Fetched(AccessModel::Unreachable, _) ==> r == Some(false),
{
    rules.robots.try_is_relative_allowed(path)
}

impl RuleSet {
    /// The rules for a retrieval of the `robots.txt` document, for the user
    /// agent `agent`: `code` is the response status, `None` where the
    /// transport failed, and `body` what was read of the response.
    pub fn from_retrieval(code: Option<u16>, body: Option<Vec<u8>>, agent: &str) -> (r: RuleSet)
        ensures
            r@ == Origin::Fetched(
                category(
                    code,
                    match body {
                        Some(b) => b@,
                        None => Seq::<u8>::empty(),
                    },
                ),
                agent@,
            ),
    {
        parse_access(classify(code, body), agent)
    }

    /// Rules for every user agent that allow the `allow` patterns and
    /// disallow the `disallow` patterns.
    pub fn from_exceptions(allow: Vec<String>, disallow: Vec<String>) -> (r: RuleSet)
        ensures
            r@ == Origin::Exceptions(texts(allow@), texts(disallow@)),
    {
        build_exceptions(allow, disallow)
    }

    /// Whether the rules allow a request with this path and query; a request
    /// without one cannot be matched and is allowed.
    pub fn matches(&self, path: Option<&str>) -> (r: bool)
        ensures
            r == match path {
                Some(p) => robots_allow(self@, p@),
                None => true,
            },
    {
        match path {
            Some(p) => robots_allows(self, p),
            None => true,
        }
    }

    /// The verdict of the rule matching this path and query, `None` where
    /// there is no path or no rule matches it.
    pub fn verdict(&self, path: Option<&str>) -> (r: Option<bool>)
        ensures
            r == match path {
                Some(p) => robots_verdict(self@, p@),
                None => None,
            },
    {
        match path {
            Some(p) => robots_try_allows(self, p),
            None => None,
        }
    }
}

} // verus!
