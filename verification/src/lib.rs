//! A small web gateway library: an OpenID-Connect authorization-code flow,
//! JWT validation against a remote key set, a session-cookie authentication
//! middleware, and a claim-based access rule engine that decides which
//! configured sites a principal may see.
use vstd::prelude::*;
use vstd::string::StringExecFns;

pub mod auth;
pub mod config;
pub mod cookie_auth;
pub mod error;
pub mod graphql_schema;
pub mod json;
pub mod option_condition;
pub mod site;
pub mod text;

use crate::auth::Claims;
use crate::json::JsonValue;
use crate::json::json_eq;
use crate::json::spec_get_path;
use crate::site::ClaimRule;
use crate::site::Operand;
use crate::site::Operator;
use crate::site::Site;

verus! {

/// The failures of the authorization core.
#[derive(Debug, PartialEq)]
pub enum Error {
    /// The authority's key set could not be fetched or read.
    JWKSFetchError,
    /// The token names a signing key that the authority does not advertise.
    CannotFindAuthorizationSigningKey(String),
    /// The code-for-token exchange failed; the detail says how.
    TokenExchangeFailure(String),
    /// The authorization server answered the exchange with a structured
    /// error of its own.
    TokenExchangeResponseError(crate::auth::ErrorResponse),
    /// The token was rejected by signature or claim validation.
    JWTValidationFailed,
    /// The token's protected header could not be read or holds no key id.
    MalformedToken,
}

/// The human-readable description of a failure, as characters.
pub open spec fn spec_message(e: Error) -> Seq<char> {
    match e {
        Error::JWKSFetchError => "Error while fetching JWKs from authorization server"@,
        Error::CannotFindAuthorizationSigningKey(kid) => "No key with KID "@ + kid@
            + " was found"@,
        Error::TokenExchangeFailure(msg) => "Token exchange with authorization server failed: "@
            + msg@,
        Error::TokenExchangeResponseError(er) =>
        "Authorization server returned an error response on token exchange: "@ + er.error@,
        Error::JWTValidationFailed => "token validation failed"@,
        Error::MalformedToken => "token header holds no usable key id"@,
    }
}

impl Error {
    /// A human-readable description of the failure.
    pub fn message(&self) -> (r: String)
        ensures
            r@ == spec_message(*self),
    {
        match self {
            Error::JWKSFetchError => String::from_str(
                "Error while fetching JWKs from authorization server",
            ),
            Error::CannotFindAuthorizationSigningKey(kid) => {
                let mut m = String::from_str("No key with KID ");
                m.append(kid.as_str());
                m.append(" was found");
                m
            },
            Error::TokenExchangeFailure(msg) => {
                let mut m = String::from_str("Token exchange with authorization server failed: ");
                m.append(msg.as_str());
                m
            },
            Error::TokenExchangeResponseError(er) => {
                let mut m = String::from_str(
                    "Authorization server returned an error response on token exchange: ",
                );
                m.append(er.error.as_str());
                m
            },
            Error::JWTValidationFailed => String::from_str("token validation failed"),
            Error::MalformedToken => String::from_str("token header holds no usable key id"),
        }
    }
}

/// Whether the pattern of a `Regex` operand compiles. Whether it does is
/// decided by the pattern alone.
pub uninterp spec fn regex_compiles(pattern: Seq<char>) -> bool;

/// Whether a compiled pattern finds a match anywhere in the text. The
/// outcome is decided by the pattern and the text alone.
pub uninterp spec fn regex_found(pattern: Seq<char>, text: Seq<char>) -> bool;

/// Relies on regex::Regex::new and regex::Regex::is_match: compiling a
/// pattern and searching a text with it are functions of the pattern and
/// the text alone; `is_match` reports an unanchored search anywhere in the
/// text. Returns `None` when the pattern does not compile.
#[verifier::external_body]
fn regex_is_match(pattern: &str, text: &str) -> (r: Option<bool>)
    ensures
        r is Some <==> regex_compiles(pattern@),
        r matches Some(b) ==> b == regex_found(pattern@, text@),
{
    match regex::Regex::new(pattern) {
        Ok(re) => Some(re.is_match(text)),
        Err(_) => None,
    }
}

/// Whether a resolved claim value satisfies an operand: a literal operand
/// compares structurally; a pattern operand matches string values whose
/// text the compiled pattern finds a match in. A pattern that does not
/// compile matches nothing, so rule evaluation stays total.
pub open spec fn spec_matches_operand(v: JsonValue, op: Operand) -> bool {
    match op {
        Operand::Value { value } => json_eq(v, value),
        Operand::Regex { pattern } => match v {
            JsonValue::Str(s) => regex_compiles(pattern@) && regex_found(pattern@, s@),
            _ => false,
        },
    }
}

/// Whether one rule matches the claims: its path must resolve, and the
/// resolved value must satisfy the operand — directly for `Matches`, or
/// through some element of an array value for `ContainsMatch`.
pub open spec fn spec_rule_matches(claims: JsonValue, rule: ClaimRule) -> bool {
    match spec_get_path(claims, rule.path@) {
        None => false,
        Some(v) => match rule.operator {
            Operator::Matches => spec_matches_operand(v, rule.operand),
            Operator::ContainsMatch => match v {
                JsonValue::Arr(elems) => exists|i: int|
                    0 <= i < elems@.len() && spec_matches_operand(#[trigger] elems@[i], rule.operand),
                _ => false,
            },
        },
    }
}

/// Whether any rule of the site matches the claims: the disjunction over
/// the rule list, so a site with no rules matches no claims.
pub open spec fn spec_site_matches(claims: JsonValue, site: Site) -> bool {
    exists|i: int|
        0 <= i < site.claim_rules@.len() && spec_rule_matches(
            claims,
            #[trigger] site.claim_rules@[i],
        )
}

/// Decides whether a resolved claim value satisfies an operand, as
/// `spec_matches_operand` states it.
pub fn matches_operand(v: &JsonValue, op: &Operand) -> (r: bool)
    ensures
        r == spec_matches_operand(*v, *op),
{
    match op {
        Operand::Value { value } => crate::json::eq_value(v, value),
        Operand::Regex { pattern } => match v {
            JsonValue::Str(s) => match regex_is_match(pattern.as_str(), s.as_str()) {
                Some(b) => b,
                None => false,
            },
            _ => false,
        },
    }
}

fn any_element_matches(elems: &Vec<JsonValue>, op: &Operand) -> (r: bool)
    ensures
        r == exists|i: int|
            0 <= i < elems@.len() && spec_matches_operand(#[trigger] elems@[i], *op),
{
    let n = elems.len();
    let mut i: usize = 0;
    while i < n
        invariant
            i <= n,
            n == elems@.len(),
            forall|j: int| 0 <= j < i ==> !spec_matches_operand(#[trigger] elems@[j], *op),
        decreases n - i,
    {
        if matches_operand(&elems[i], op) {
            assert(spec_matches_operand(elems@[i as int], *op));
            return true;
        }
        i = i + 1;
    }
    false
}

fn rule_matches(claims: &Claims, rule: &ClaimRule) -> (r: bool)
    ensures
        r == spec_rule_matches(claims.0, *rule),
{
    let resolved = claims.get_path(rule.path.as_str());
    match resolved {
        None => false,
        Some(v) => match rule.operator {
            Operator::Matches => matches_operand(v, &rule.operand),
            Operator::ContainsMatch => match v {
                JsonValue::Arr(elems) => any_element_matches(elems, &rule.operand),
                _ => false,
            },
        },
    }
}

/// Decides whether any rule of the site matches the claims. The rules are
/// tried in order and the first match wins, which equals the disjunction
/// over all rules that `spec_site_matches` states.
pub fn is_site_for_claims(site: &Site, claims: &Claims) -> (r: bool)
    ensures
        r == spec_site_matches(claims.0, *site),
{
    let n = site.claim_rules.len();
    let mut i: usize = 0;
    while i < n
        invariant
            i <= n,
            n == site.claim_rules@.len(),
            forall|j: int| 0 <= j < i ==> !spec_rule_matches(claims.0, #[trigger] site.claim_rules@[j]),
        decreases n - i,
    {
        if rule_matches(claims, &site.claim_rules[i]) {
            return true;
        }
        i = i + 1;
    }
    false
}

/// Decides whether a site is shown to a principal. With claims present the
/// site's rules decide; with claims absent everything is hidden under
/// enabled authentication and everything is shown when authentication is
/// administratively disabled.
pub fn is_visible(site: &Site, claims: Option<&Claims>, auth_enabled: bool) -> (r: bool)
    ensures
        r == match claims {
            None => !auth_enabled,
            Some(c) => spec_site_matches(c.0, *site),
        },
{
    match claims {
        None => !auth_enabled,
        Some(c) => is_site_for_claims(site, c),
    }
}

/// The visibility predicate of one principal's claims, as a function on
/// sites.
pub open spec fn site_pred(claims: JsonValue) -> spec_fn(Site) -> bool {
    |s: Site| spec_site_matches(claims, s)
}

/// The site values behind a sequence of site references.
pub open spec fn deref_sites(v: Seq<&Site>) -> Seq<Site> {
    v.map_values(|s: &Site| *s)
}

/// The sites shown on a page: with claims attached, exactly those whose
/// rules match, in their configured order; with none attached, no site.
pub fn visible_sites<'a>(list: &'a site::SiteList, claims: Option<&Claims>) -> (v: Vec<&'a Site>)
    ensures
        match claims {
            None => v@.len() == 0,
            Some(c) => deref_sites(v@) == list.spec_sites().filter(site_pred(c.0)),
        },
{
    let mut v: Vec<&Site> = Vec::new();
    let c = match claims {
        Some(c) => c,
        None => {
            return v;
        },
    };
    let sites = list.sites();
    let n = sites.len();
    let mut i: usize = 0;
    proof {
        reveal(Seq::filter);
        assert(sites@.take(0).filter(site_pred(c.0)) =~= Seq::<Site>::empty());
        assert(deref_sites(v@) =~= Seq::<Site>::empty());
    }
    while i < n
        invariant
            i <= n,
            n == sites@.len(),
            sites@ == list.spec_sites(),
            deref_sites(v@) == sites@.take(i as int).filter(site_pred(c.0)),
        decreases n - i,
    {
        let ghost prev = v@;
        let s = &sites[i];
        let matched = is_site_for_claims(s, c);
        if matched {
            v.push(s);
        }
        proof {
            reveal(Seq::filter);
            let t1 = sites@.take(i + 1);
            assert(t1.drop_last() =~= sites@.take(i as int));
            assert(t1.last() == sites@[i as int]);
            if matched {
                assert(deref_sites(v@) =~= deref_sites(prev).push(sites@[i as int]));
            }
        }
        i = i + 1;
    }
    proof {
        assert(sites@.take(n as int) =~= sites@);
    }
    v
}

/// A site with an empty rule list matches no claims at all: rule
/// evaluation is the disjunction over its rules, which is empty.
pub proof fn lemma_empty_rules_match_nothing(site: Site, claims: Claims)
    requires
        site.claim_rules@.len() == 0,
    ensures
        !spec_site_matches(claims.0, site),
{
}

} // verus!
