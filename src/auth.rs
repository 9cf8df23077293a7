use vstd::prelude::*;

pub mod jwt;

verus! {

/// Internal identifier of a user, stable for the user's lifetime.
#[derive(Debug, Clone, Copy, PartialEq, Eq, Structural, PartialOrd, Ord, Hash)]
pub struct UserId(pub i64);

impl From<i64> for UserId {
    fn from(v: i64) -> (r: UserId)
        ensures
            r.0 == v,
    {
        UserId(v)
    }
}

impl vstd::std_specs::convert::FromSpecImpl<i64> for UserId {
    open spec fn obeys_from_spec() -> bool {
        true
    }

    open spec fn from_spec(v: i64) -> UserId {
        UserId(v)
    }
}

/// An authenticated caller: the subject key its token carried and the
/// identity that key resolved to.
#[derive(Debug, Clone, Copy, PartialEq, Eq, Structural)]
pub struct User {
    pub key_ref_id: i64,
    pub id: UserId,
}

} // verus!
