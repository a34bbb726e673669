//! A string-backed error that optionally records the description of the
//! failure it arose from.
use vstd::prelude::*;
use vstd::string::StringExecFns;

verus! {

/// An error carrying a message and, optionally, the description of its
/// source.
#[derive(Debug)]
pub struct StringError {
    pub msg: String,
    pub source: Option<String>,
}

impl StringError {
    /// An error with the given message, recording the description of the
    /// failure it arose from.
    pub fn from_source(source: String, msg: &str) -> (r: StringError)
        ensures
            r.msg@ == msg@,
            r.source matches Some(s) && s == source,
    {
        StringError { source: Some(source), msg: String::from_str(msg) }
    }

    /// The message of this error.
    pub fn message(&self) -> (r: &str)
        ensures
            r@ == self.msg@,
    {
        self.msg.as_str()
    }

    /// The recorded source description, if any.
    pub fn source(&self) -> (r: Option<&String>)
        ensures
            match r {
                Some(s) => self.source == Some(*s),
                None => self.source is None,
            },
    {
        self.source.as_ref()
    }
}

impl From<String> for StringError {
    /// An error holding the given message, with no source.
    fn from(msg: String) -> (r: StringError) {
        StringError { msg, source: None }
    }
}

impl vstd::std_specs::convert::FromSpecImpl<String> for StringError {
    open spec fn obeys_from_spec() -> bool {
        true
    }

    open spec fn from_spec(msg: String) -> StringError {
        StringError { msg, source: None }
    }
}

impl From<&str> for StringError {
    /// An error holding the given message, with no source.
    fn from(msg: &str) -> (r: StringError) {
        StringError { msg: String::from_str(msg), source: None }
    }
}

impl vstd::std_specs::convert::FromSpecImpl<&str> for StringError {
    /// No spec-level `String` can be built from a `&str`, so nothing is
    /// claimed of this conversion.
    open spec fn obeys_from_spec() -> bool {
        false
    }

    open spec fn from_spec(msg: &str) -> StringError {
        vstd::pervasive::arbitrary()
    }
}

} // verus!
