//! An optionally applied middleware: wraps a transform that may be absent,
//! so the choice between wrapping and passing through is made once at
//! construction time.
use vstd::prelude::*;

verus! {

/// A middleware transform that may be absent.
pub struct OptionCondition<T> {
    pub trans_opt: Option<T>,
}

impl<T> OptionCondition<T> {
    /// A condition around the given optional transform.
    pub fn new(trans_opt: Option<T>) -> (r: OptionCondition<T>)
        ensures
            r.trans_opt == trans_opt,
    {
        OptionCondition { trans_opt }
    }
}

impl<T> From<Option<T>> for OptionCondition<T> {
    /// A condition around the given optional transform.
    fn from(trans_opt: Option<T>) -> (r: OptionCondition<T>) {
        OptionCondition { trans_opt }
    }
}

impl<T> vstd::std_specs::convert::FromSpecImpl<Option<T>> for OptionCondition<T> {
    open spec fn obeys_from_spec() -> bool {
        true
    }

    open spec fn from_spec(trans_opt: Option<T>) -> OptionCondition<T> {
        OptionCondition { trans_opt }
    }
}

/// The selected middleware: the wrapped service behind the enabled
/// transform, or the bare service when the transform was absent.
pub enum OptionMiddleware<E, D> {
    Enable(E),
    Disable(D),
}

} // verus!
