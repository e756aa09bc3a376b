use vstd::prelude::*;

verus! {

/// A key/value pair as it travels through the service.
#[derive(Debug, Clone, PartialEq, Eq)]
pub struct StringBody {
    pub key: String,
    pub value: String,
}

impl StringBody {
    /// Builds a pair from the given key and value, unchanged.
    pub fn new(key: String, value: String) -> (r: Self)
        ensures
            r.key@ == key@,
            r.value@ == value@,
    {
        StringBody { key, value }
    }
}

} // verus!
