//! Result codes exchanged with the host framework.
use vstd::prelude::*;

verus! {

/// Outcome of delivering data to a peer.
#[derive(Clone, Copy, Debug, PartialEq, Eq, Structural)]
pub enum GstFlowReturn {
    Success,
    NotLinked,
    Flushing,
    Eos,
    NotNegotiated,
    Error,
}

/// Truth value as exchanged with C callers.
#[derive(Clone, Copy, Debug, PartialEq, Eq, Structural)]
pub enum GBoolean {
    False,
    True,
}

impl GBoolean {
    /// The C truth value for `v`.
    pub fn from_bool(v: bool) -> (r: GBoolean)
        ensures
            r == (if v {
                GBoolean::True
            } else {
                GBoolean::False
            }),
    {
        match v {
            true => GBoolean::True,
            false => GBoolean::False,
        }
    }
}

} // verus!
