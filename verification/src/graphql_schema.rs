//! The data behind the GraphQL query surface; the HTTP and schema plumbing
//! lives with the application.
use vstd::prelude::*;
use vstd::string::StringExecFns;

verus! {

/// A resource that the gateway manages.
#[derive(Debug, PartialEq)]
pub struct Resource {
    pub id: i32,
    pub name: String,
}

/// The per-request context of the query surface.
#[derive(Debug)]
pub struct Context {}

/// The root query type.
#[derive(Debug)]
pub struct Query;

impl Query {
    /// The fixed resource list the query resolves to.
    pub fn resources() -> (v: Vec<Resource>)
        ensures
            v@.len() == 1,
            v@[0].id == 1,
            v@[0].name@ == "Uwe"@,
    {
        let mut v: Vec<Resource> = Vec::new();
        v.push(Resource { id: 1, name: String::from_str("Uwe") });
        v
    }
}

} // verus!
