//! The refresher's decisions: what one fetch cycle installs, and the
//! install itself. Fetching and sleeping are left to the caller, which hands
//! each cycle's outcome in and waits `REFRESH_INTERVAL_SECS` between cycles.

use vstd::prelude::*;

use crate::decode::{all_decode, all_decoded_from, decode_halls, rejected_with, DecodeError, RawHall};
use crate::hall::DiningHallInfo;
use crate::snapshot::{map_of, SnapshotStore};

verus! {

/// Seconds that the refresher sleeps after each cycle before it fetches again.
pub const REFRESH_INTERVAL_SECS: u64 = 300;

/// What one fetch of the upstream list gave.
pub enum CycleEvent {
    /// The request failed or the upstream answered with an error status.
    FetchFailed,
    /// The answer is not a JSON list of halls.
    Unreadable,
    /// The upstream list, every field but the two menus already read.
    Fetched(Vec<RawHall>),
}

/// Why a cycle left the snapshot as it was.
#[derive(Debug, Clone, Copy, PartialEq, Eq)]
pub enum CycleError {
    Fetch,
    Unreadable,
    Decode(DecodeError),
}

/// What a cycle does with the snapshot.
pub enum CycleAction {
    /// Replace the snapshot with this one.
    Install(SnapshotStore),
    /// Keep the snapshot; the reason is only to be logged.
    Skip(CycleError),
}

/// Decides one cycle: a fetched list whose halls all decode becomes a new
/// snapshot, keyed by hall name, later halls replacing earlier ones of the
/// same name; a failed fetch, an unreadable answer or a list that does not
/// decode keeps the current snapshot.
pub fn plan_cycle(event: CycleEvent) -> (r: CycleAction)
    ensures
        match event {
            CycleEvent::FetchFailed => r == CycleAction::Skip(CycleError::Fetch),
            CycleEvent::Unreadable => r == CycleAction::Skip(CycleError::Unreadable),
            CycleEvent::Fetched(raws) => {
                &&& all_decode(raws@) ==> (r matches CycleAction::Install(s) && exists|
                    v: Seq<DiningHallInfo>,
                | all_decoded_from(v, raws@) && s@ == map_of(v))
                &&& !all_decode(raws@) ==> (r matches CycleAction::Skip(CycleError::Decode(e))
                    && rejected_with(raws@, e))
            },
        },
{
    match event {
        CycleEvent::FetchFailed => CycleAction::Skip(CycleError::Fetch),
        CycleEvent::Unreadable => CycleAction::Skip(CycleError::Unreadable),
        CycleEvent::Fetched(raws) => match decode_halls(raws) {
            Ok(halls) => {
                let ghost v = halls@;
                let s = SnapshotStore::from_halls(halls);
                assert(s@ == map_of(v));
                CycleAction::Install(s)
            },
            Err(e) => CycleAction::Skip(CycleError::Decode(e)),
        },
    }
}

impl SnapshotStore {
    /// Carries out a cycle's decision: installs a new snapshot whole, or
    /// keeps this one and hands back why.
    pub fn apply(&mut self, action: CycleAction) -> (r: Option<CycleError>)
        ensures
            match action {
                CycleAction::Install(s) => final(self)@ == s@ && r is None,
                CycleAction::Skip(e) => final(self)@ == old(self)@ && r == Some(e),
            },
    {
        match action {
            CycleAction::Install(s) => {
                self.replace(s);
                None
            },
            CycleAction::Skip(e) => Some(e),
        }
    }
}

} // verus!
