//! The record kept for each dining hall.

use vstd::prelude::*;

verus! {

/// A JSON value that a record carries through unread.
#[verifier::external_type_specification]
#[verifier::external_body]
pub struct ExJsonValue(serde_json::Value);

/// Relies on serde_json's derived `Clone` for `Value`, which a derived
/// `Clone` of a record calls; nothing is claimed of the copy.
pub assume_specification[ <serde_json::Value as Clone>::clone ](v: &serde_json::Value) -> serde_json::Value;

/// One exception day of a hall's schedule.
#[derive(Default, Debug, Clone, PartialEq)]
pub struct Exception {
    pub date: String,
    pub day: String,
    pub hour: String,
}

/// The hours of one location on one weekday.
#[derive(Default, Debug, Clone, PartialEq)]
pub struct Hour {
    pub location_name: String,
    pub day: String,
    pub hour: String,
}

/// Exception-day hours, beside the normal ones.
#[derive(Default, Debug, Clone, PartialEq)]
pub struct NewLocationHour {
    pub exception_title: String,
    pub exceptions: Vec<Exception>,
    pub normal_hour: String,
    pub hours: Vec<Hour>,
}

/// The two shapes in which the upstream list sends a free-text menu:
/// a placeholder flag, or text holding a nested JSON document.
#[derive(Debug, Clone, PartialEq)]
pub enum Menu {
    Bool(bool),
    Menu(String),
}

/// The two shapes in which the upstream list sends the per-meal menus.
#[derive(Debug, Clone, PartialEq)]
pub enum MenuMeal {
    Bool(bool),
    MenuMeal(String),
}

/// Everything known of one dining hall. Its key in a snapshot is
/// `location_title`.
#[derive(Default, Debug, Clone, PartialEq)]
pub struct DiningHallInfo {
    pub opening_hours: String,
    pub closing_hours: String,
    pub location_title: String,
    pub breakfast_open_time: Option<String>,
    pub breakfast_close_time: Option<String>,
    pub breakfast_menu: String,
    pub lunch_open_time: Option<String>,
    pub lunch_close_time: Option<String>,
    pub lunch_menu: String,
    pub dinner_open_time: Option<String>,
    pub dinner_close_time: Option<String>,
    pub dinner_menu: String,
    pub latenight_menu: Option<String>,
    pub locations: String,
    pub new_location_hour: Option<NewLocationHour>,
    pub livestream_entrance_link: Option<String>,
    pub livestream_entrance_text: Option<String>,
    pub livestream_seating_link: Option<String>,
    pub livestream_seating_text: Option<String>,
    pub cash_period_start: Option<String>,
    pub cash_period_end: Option<String>,
    pub cash_period: Option<String>,
    pub location_id: i64,
    pub short_name: String,
    pub short_description: String,
    pub short_description_v2: String,
    pub location_url: String,
    pub business_level: i64,
    pub accepted_payment: String,
    pub is_new: String,
    pub distance: Option<String>,
    pub notbusy_level: serde_json::Value,
    pub moderate_level: serde_json::Value,
    pub address: String,
    pub map_address: String,
    pub contact_information: String,
    pub contact_information_plain: String,
    /// The free-text menu, one entry per dish; `None` when absent.
    pub menu: Option<Vec<String>>,
    /// The menu of each meal, keyed by meal name (keys distinct); `None`
    /// when absent.
    pub menu_meal: Option<Vec<(String, Vec<String>)>>,
    pub featured_image: String,
    pub open_24: Option<i64>,
    pub mon_hour: Option<String>,
    pub tue_hour: Option<String>,
    pub wed_hour: Option<String>,
    pub thu_hour: Option<String>,
    pub fri_hour: Option<String>,
    pub sat_hour: Option<String>,
    pub sun_hour: Option<String>,
    pub reservation_information: Option<String>,
    pub reservation_information_plain: Option<String>,
}

} // verus!
