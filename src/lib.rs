//! An in-memory cache of dining-hall records, refreshed from an upstream list
//! and queried by hall name.

pub mod decode;
pub mod hall;
pub mod query;
pub mod refresh;
pub mod snapshot;

pub use decode::{decode_hall, decode_halls, deserialize_menu, deserialize_menu_meal, DecodeError, JsonField, RawHall};
pub use hall::{DiningHallInfo, Exception, Hour, Menu, MenuMeal, NewLocationHour};
pub use query::{get_info, list_dining_halls, LookupMiss};
pub use refresh::{plan_cycle, CycleAction, CycleError, CycleEvent, REFRESH_INTERVAL_SECS};
pub use snapshot::SnapshotStore;
