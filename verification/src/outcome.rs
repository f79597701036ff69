//! What results say, in terms of what the values in them say.
use vstd::prelude::*;

verus! {

/// What a result says.
pub open spec fn seen<T: View, E: View>(r: Result<T, E>) -> Result<T::V, E::V> {
    match r {
        Ok(v) => Ok(v@),
        Err(e) => Err(e@),
    }
}

/// What an optional value says.
pub open spec fn shown<T: View>(v: Option<T>) -> Option<T::V> {
    match v {
        Some(v) => Some(v@),
        None => None,
    }
}

} // verus!
