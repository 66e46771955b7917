use vstd::prelude::*;

use crate::datastore::Datastore;

verus! {

/// What the command surface works on: the configuration store's front.
pub struct ContextData {
    pub datastore: Datastore,
}

impl ContextData {
    pub fn new(datastore: Datastore) -> (r: ContextData)
        ensures
            r.datastore == datastore,
    {
        ContextData { datastore }
    }
}

} // verus!
