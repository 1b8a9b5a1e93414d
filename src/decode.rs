//! The tolerant decode of the upstream list: the free-text menu and the
//! per-meal menus may come as text holding nested JSON, as a placeholder
//! flag, as null, or not at all.

use vstd::prelude::*;

use crate::hall::DiningHallInfo;
use crate::snapshot::texts;

verus! {

/// The error that serde_json reports when it rejects its input.
#[verifier::external_type_specification]
#[verifier::external_body]
pub struct ExJsonError(serde_json::Error);

/// The strings that serde_json reads from `text` as a JSON array of strings;
/// `None` where it rejects the text.
pub uninterp spec fn string_list_of(text: Seq<char>) -> Option<Seq<Seq<char>>>;

/// The object that serde_json reads from `text` as a JSON object whose
/// values are arrays of strings, each key mapped to its strings; `None` where
/// it rejects the text.
pub uninterp spec fn meal_menus_of(text: Seq<char>) -> Option<Map<Seq<char>, Seq<Seq<char>>>>;

/// The meal names of a list of per-meal menus, in order.
pub open spec fn meal_names(v: Seq<(String, Vec<String>)>) -> Seq<Seq<char>> {
    v.map_values(|p: (String, Vec<String>)| p.0@)
}

/// Each meal name of a list of per-meal menus mapped to its dishes.
pub open spec fn meals_view(v: Seq<(String, Vec<String>)>) -> Map<Seq<char>, Seq<Seq<char>>>
    decreases v.len(),
{
    if v.len() == 0 {
        Map::empty()
    } else {
        meals_view(v.drop_last()).insert(v.last().0@, texts(v.last().1@))
    }
}

/// Relies on `serde_json::from_str::<Vec<String>>` to read a JSON array of
/// strings; what it accepts and returns is named by `string_list_of`.
#[verifier::external_body]
fn parse_string_list(text: &str) -> (r: Result<Vec<String>, serde_json::Error>)
    ensures
        r is Ok <==> string_list_of(text@) is Some,
        r matches Ok(v) ==> texts(v@) == string_list_of(text@).unwrap(),
{
    serde_json::from_str::<Vec<String>>(text)
}

/// Relies on `serde_json::from_str::<HashMap<String, Vec<String>>>` to read a
/// JSON object of string arrays; what it accepts and returns is named by
/// `meal_menus_of`. The map's entries come out in the map's own order, each
/// key once.
#[verifier::external_body]
fn parse_meal_menus(text: &str) -> (r: Result<Vec<(String, Vec<String>)>, serde_json::Error>)
    ensures
        r is Ok <==> meal_menus_of(text@) is Some,
        r matches Ok(v) ==> meal_names(v@).no_duplicates() && meals_view(v@)
            == meal_menus_of(text@).unwrap(),
{
    match serde_json::from_str::<std::collections::HashMap<String, Vec<String>>>(text) {
        Ok(m) => Ok(m.into_iter().collect()),
        Err(e) => Err(e),
    }
}

/// How one of the two tolerant menu fields of a hall came in the upstream
/// list.
#[derive(Debug, Clone, PartialEq)]
pub enum JsonField {
    Missing,
    Null,
    Bool(bool),
    Text(String),
    Number,
    Array,
    Object,
}

/// Why a fetched list could not be decoded.
#[derive(Debug, Clone, Copy, PartialEq, Eq)]
pub enum DecodeError {
    /// The menu text is not a JSON array of strings.
    MalformedMenu,
    /// The menu came as a number, an array or an object.
    UnsupportedMenu,
    /// The per-meal menu text is not a JSON object of string arrays.
    MalformedMenuMeal,
    /// The per-meal menu came as a number, an array or an object.
    UnsupportedMenuMeal,
}

/// What the free-text menu field decodes to: the dishes of its text, or
/// absent for a flag, a null or a missing field.
pub open spec fn menu_spec(f: JsonField) -> Result<Option<Seq<Seq<char>>>, DecodeError> {
    match f {
        JsonField::Missing | JsonField::Null | JsonField::Bool(_) => Ok(None),
        JsonField::Text(t) => match string_list_of(t@) {
            Some(l) => Ok(Some(l)),
            None => Err(DecodeError::MalformedMenu),
        },
        _ => Err(DecodeError::UnsupportedMenu),
    }
}

/// What the per-meal menu field decodes to, as `menu_spec` does for the
/// free-text menu.
pub open spec fn menu_meal_spec(f: JsonField) -> Result<
    Option<Map<Seq<char>, Seq<Seq<char>>>>,
    DecodeError,
> {
    match f {
        JsonField::Missing | JsonField::Null | JsonField::Bool(_) => Ok(None),
        JsonField::Text(t) => match meal_menus_of(t@) {
            Some(m) => Ok(Some(m)),
            None => Err(DecodeError::MalformedMenuMeal),
        },
        _ => Err(DecodeError::UnsupportedMenuMeal),
    }
}

/// The free-text menu of a record, as plain values.
pub open spec fn menu_view(m: Option<Vec<String>>) -> Option<Seq<Seq<char>>> {
    match m {
        Some(v) => Some(texts(v@)),
        None => None,
    }
}

/// The per-meal menus of a record, as plain values; their meal names are
/// distinct.
pub open spec fn menu_meal_view(m: Option<Vec<(String, Vec<String>)>>) -> Option<
    Map<Seq<char>, Seq<Seq<char>>>,
> {
    match m {
        Some(v) => Some(meals_view(v@)),
        None => None,
    }
}

/// The per-meal menus hold each meal name once.
pub open spec fn menu_meal_keys_unique(m: Option<Vec<(String, Vec<String>)>>) -> bool {
    match m {
        Some(v) => meal_names(v@).no_duplicates(),
        None => true,
    }
}

/// Decodes the free-text menu field: text is read as a JSON array of
/// strings, a flag, a null or a missing field is absent, and any other shape
/// is an error.
pub fn deserialize_menu(field: &JsonField) -> (r: Result<Option<Vec<String>>, DecodeError>)
    ensures
        match menu_spec(*field) {
            Ok(m) => r matches Ok(v) && menu_view(v) == m,
            Err(e) => r == Err::<Option<Vec<String>>, DecodeError>(e),
        },
{
    match field {
        JsonField::Text(t) => match parse_string_list(t.as_str()) {
            Ok(v) => Ok(Some(v)),
            Err(_) => Err(DecodeError::MalformedMenu),
        },
        JsonField::Missing | JsonField::Null | JsonField::Bool(_) => Ok(None),
        _ => Err(DecodeError::UnsupportedMenu),
    }
}

/// Decodes the per-meal menu field as `deserialize_menu` does the free-text
/// one, with text read as a JSON object of string arrays.
pub fn deserialize_menu_meal(field: &JsonField) -> (r: Result<
    Option<Vec<(String, Vec<String>)>>,
    DecodeError,
>)
    ensures
        match menu_meal_spec(*field) {
            Ok(m) => r matches Ok(v) && menu_meal_view(v) == m && menu_meal_keys_unique(v),
            Err(e) => r == Err::<Option<Vec<(String, Vec<String>)>>, DecodeError>(e),
        },
{
    match field {
        JsonField::Text(t) => match parse_meal_menus(t.as_str()) {
            Ok(v) => Ok(Some(v)),
            Err(_) => Err(DecodeError::MalformedMenuMeal),
        },
        JsonField::Missing | JsonField::Null | JsonField::Bool(_) => Ok(None),
        _ => Err(DecodeError::UnsupportedMenuMeal),
    }
}

/// One hall as it came in the upstream list: every field but the two menus
/// already read, and the two menus in the shape in which they came. The menus
/// of `info` are not read.
#[derive(Debug, Clone)]
pub struct RawHall {
    pub info: DiningHallInfo,
    pub menu: JsonField,
    pub menu_meal: JsonField,
}

/// The hall decodes: both menu fields have a supported shape and readable
/// text.
pub open spec fn decodes(raw: RawHall) -> bool {
    menu_spec(raw.menu) is Ok && menu_meal_spec(raw.menu_meal) is Ok
}

/// Why the hall does not decode: the menu's error first, then the per-meal
/// menu's.
pub open spec fn decode_error(raw: RawHall) -> DecodeError {
    match menu_spec(raw.menu) {
        Err(e) => e,
        Ok(_) => match menu_meal_spec(raw.menu_meal) {
            Err(e) => e,
            Ok(_) => DecodeError::MalformedMenu,
        },
    }
}

/// `h` is the record that `raw` decodes to: the fields of `raw.info`, with
/// the two menus that its fields decode to.
pub open spec fn decoded_from(h: DiningHallInfo, raw: RawHall) -> bool {
    &&& h == (DiningHallInfo { menu: h.menu, menu_meal: h.menu_meal, ..raw.info })
    &&& menu_spec(raw.menu) == Ok::<Option<Seq<Seq<char>>>, DecodeError>(menu_view(h.menu))
    &&& menu_meal_spec(raw.menu_meal) == Ok::<
        Option<Map<Seq<char>, Seq<Seq<char>>>>,
        DecodeError,
    >(menu_meal_view(h.menu_meal))
    &&& menu_meal_keys_unique(h.menu_meal)
}

/// Each record of `v` is what the hall at its place in `raws` decodes to.
pub open spec fn all_decoded_from(v: Seq<DiningHallInfo>, raws: Seq<RawHall>) -> bool {
    &&& v.len() == raws.len()
    &&& forall|i: int| 0 <= i < raws.len() ==> decoded_from(#[trigger] v[i], raws[i])
}

/// Every hall of the list decodes.
pub open spec fn all_decode(raws: Seq<RawHall>) -> bool {
    forall|i: int| 0 <= i < raws.len() ==> decodes(#[trigger] raws[i])
}

/// The list is rejected with `e`: the error of its first hall that does not
/// decode.
pub open spec fn rejected_with(raws: Seq<RawHall>, e: DecodeError) -> bool {
    exists|i: int|
        0 <= i < raws.len() && !decodes(#[trigger] raws[i]) && e == decode_error(raws[i])
            && forall|j: int| 0 <= j < i ==> decodes(#[trigger] raws[j])
}

/// Decodes one hall: its two menu fields, the menu first.
pub fn decode_hall(raw: RawHall) -> (r: Result<DiningHallInfo, DecodeError>)
    ensures
        decodes(raw) <==> r is Ok,
        r matches Ok(h) ==> decoded_from(h, raw),
        r matches Err(e) ==> e == decode_error(raw),
{
    let menu = deserialize_menu(&raw.menu)?;
    let menu_meal = deserialize_menu_meal(&raw.menu_meal)?;
    let mut info = raw.info;
    info.menu = menu;
    info.menu_meal = menu_meal;
    Ok(info)
}

/// Decodes a fetched list, hall by hall in order; the first hall that does
/// not decode rejects the whole list.
pub fn decode_halls(raws: Vec<RawHall>) -> (r: Result<Vec<DiningHallInfo>, DecodeError>)
    ensures
        all_decode(raws@) <==> r is Ok,
        r matches Ok(v) ==> all_decoded_from(v@, raws@),
        r matches Err(e) ==> rejected_with(raws@, e),
{
    let ghost all = raws@;
    assert(all == raws@);
    let mut rest = raws;
    let mut done: Vec<DiningHallInfo> = Vec::new();
    while rest.len() > 0
        invariant
            all == raws@,
            done@.len() + rest@.len() == all.len(),
            rest@ == all.subrange(done@.len() as int, all.len() as int),
            forall|i: int| 0 <= i < done@.len() ==> decodes(#[trigger] all[i]),
            forall|i: int| 0 <= i < done@.len() ==> decoded_from(#[trigger] done@[i], all[i]),
        decreases rest@.len(),
    {
        let raw = rest.remove(0);
        let k = done.len();
        assert(raw == all[k as int]);
        match decode_hall(raw) {
            Ok(h) => {
                done.push(h);
                assert(rest@ =~= all.subrange(done@.len() as int, all.len() as int));
            },
            Err(e) => {
                assert(!decodes(all[k as int]) && e == decode_error(all[k as int]));
                assert(forall|j: int| 0 <= j < k ==> decodes(#[trigger] all[j]));
                return Err(e);
            },
        }
    }
    Ok(done)
}

/// A flag, a null or a missing field decodes to an absent menu, for either
/// menu field.
pub proof fn lemma_placeholders_are_absent(f: JsonField)
    requires
        f is Bool || f is Null || f is Missing,
    ensures
        menu_spec(f) == Ok::<Option<Seq<Seq<char>>>, DecodeError>(None),
        menu_meal_spec(f) == Ok::<Option<Map<Seq<char>, Seq<Seq<char>>>>, DecodeError>(None),
{
}

/// A hall whose menu came as a number rejects the whole list, whatever the
/// other halls hold.
pub proof fn lemma_number_menu_rejects_list(raws: Seq<RawHall>, i: int)
    requires
        0 <= i < raws.len(),
        raws[i].menu is Number,
    ensures
        !all_decode(raws),
{
    assert(!decodes(raws[i]));
}

} // verus!
