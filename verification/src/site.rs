//! Configuration-sourced sites and the declarative claim rules that decide
//! their visibility.
use vstd::prelude::*;

use crate::json::JsonValue;

verus! {

/// A list of sites, immutable after configuration load.
#[derive(Debug)]
pub struct SiteList {
    sites: Vec<Site>,
}

impl SiteList {
    /// An empty site list.
    pub fn new() -> (r: SiteList)
        ensures
            r.spec_sites().len() == 0,
    {
        SiteList { sites: Vec::new() }
    }

    /// A site list holding exactly the given sites.
    pub fn from_sites(sites: Vec<Site>) -> (r: SiteList)
        ensures
            r.spec_sites() == sites@,
    {
        SiteList { sites }
    }

    /// The sites of this list.
    pub fn sites(&self) -> (r: &Vec<Site>)
        ensures
            r@ == self.spec_sites(),
    {
        &self.sites
    }

    /// The sites of this list, as a specification value.
    pub closed spec fn spec_sites(&self) -> Seq<Site> {
        self.sites@
    }
}

/// One link behind the gateway, guarded by its claim rules.
#[derive(Debug)]
pub struct Site {
    pub name: String,
    pub description: Option<String>,
    pub url: String,
    pub claim_rules: Vec<ClaimRule>,
}

impl Site {
    /// A site with the given fields.
    pub fn new(name: String, description: Option<String>, url: String, claim_rules: Vec<
        ClaimRule,
    >) -> (r: Site)
        ensures
            r.name == name,
            r.description == description,
            r.url == url,
            r.claim_rules == claim_rules,
    {
        Site { name, description, url, claim_rules }
    }

    /// The display name of the site.
    pub fn name(&self) -> (r: &String)
        ensures
            *r == self.name,
    {
        &self.name
    }

    /// The optional description of the site.
    pub fn description(&self) -> (r: &Option<String>)
        ensures
            *r == self.description,
    {
        &self.description
    }

    /// The target address of the site.
    pub fn url(&self) -> (r: &String)
        ensures
            *r == self.url,
    {
        &self.url
    }
}

/// One visibility rule: a dotted path into the claims, an operator, and an
/// operand to hold the resolved value against.
#[derive(Debug)]
pub struct ClaimRule {
    pub path: String,
    pub operator: Operator,
    pub operand: Operand,
}

/// How a resolved claim value is held against the operand.
#[derive(Debug, PartialEq, Eq, Structural)]
pub enum Operator {
    Matches,
    ContainsMatch,
}

/// What a resolved claim value is held against: a literal value compared
/// structurally, or a regular-expression pattern searched in string values.
#[derive(Debug)]
pub enum Operand {
    Value { value: JsonValue },
    Regex { pattern: String },
}

} // verus!
