//! The two queries served from the current snapshot.

use vstd::prelude::*;

use crate::hall::DiningHallInfo;
use crate::snapshot::{texts, SnapshotStore};

verus! {

/// A query for a hall name that the current snapshot does not hold.
#[derive(Debug, Clone, Copy, PartialEq, Eq)]
pub struct LookupMiss;

/// The names of all halls in the snapshot, each once, in no particular
/// order; empty before any refresh has completed.
pub fn list_dining_halls(store: &SnapshotStore) -> (r: Vec<String>)
    ensures
        texts(r@).to_set() == store@.dom(),
        texts(r@).no_duplicates(),
{
    store.get_all_names()
}

/// The record of the hall named exactly `name`, or `LookupMiss` where the
/// snapshot holds none.
pub fn get_info<'a>(store: &'a SnapshotStore, name: &str) -> (r: Result<&'a DiningHallInfo, LookupMiss>)
    ensures
        match r {
            Ok(h) => store@.contains_key(name@) && *h == store@[name@] && h.location_title@
                == name@,
            Err(_) => !store@.contains_key(name@),
        },
{
    match store.get(name) {
        Some(h) => Ok(h),
        None => Err(LookupMiss),
    }
}

} // verus!
