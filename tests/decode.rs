use dining_hall_cache::{
    decode_hall, decode_halls, deserialize_menu, deserialize_menu_meal, DecodeError,
    DiningHallInfo, JsonField, RawHall,
};

fn text(s: &str) -> JsonField {
    JsonField::Text(s.to_string())
}

fn raw(title: &str, menu: JsonField, menu_meal: JsonField) -> RawHall {
    RawHall {
        info: DiningHallInfo {
            location_title: title.to_string(),
            ..Default::default()
        },
        menu,
        menu_meal,
    }
}

#[test]
fn menu_text_holding_a_list_is_read() {
    let r = deserialize_menu(&text("[\"Pizza\",\"Salad\"]"));
    assert_eq!(r, Ok(Some(vec!["Pizza".to_string(), "Salad".to_string()])));
}

#[test]
fn menu_text_holding_an_empty_list_is_read() {
    assert_eq!(deserialize_menu(&text("[]")), Ok(Some(vec![])));
}

#[test]
fn menu_false_is_absent() {
    assert_eq!(deserialize_menu(&JsonField::Bool(false)), Ok(None));
}

#[test]
fn menu_true_is_absent() {
    assert_eq!(deserialize_menu(&JsonField::Bool(true)), Ok(None));
}

#[test]
fn menu_null_is_absent() {
    assert_eq!(deserialize_menu(&JsonField::Null), Ok(None));
}

#[test]
fn menu_missing_is_absent() {
    assert_eq!(deserialize_menu(&JsonField::Missing), Ok(None));
}

#[test]
fn menu_number_is_an_error() {
    assert_eq!(deserialize_menu(&JsonField::Number), Err(DecodeError::UnsupportedMenu));
}

#[test]
fn menu_array_and_object_are_errors() {
    assert_eq!(deserialize_menu(&JsonField::Array), Err(DecodeError::UnsupportedMenu));
    assert_eq!(deserialize_menu(&JsonField::Object), Err(DecodeError::UnsupportedMenu));
}

#[test]
fn menu_text_that_is_not_a_list_is_an_error() {
    assert_eq!(deserialize_menu(&text("Pizza")), Err(DecodeError::MalformedMenu));
    assert_eq!(deserialize_menu(&text("[1, 2]")), Err(DecodeError::MalformedMenu));
}

#[test]
fn menu_meal_text_holding_an_object_is_read() {
    let r = deserialize_menu_meal(&text("{\"Lunch\": [\"Soup\", \"Bread\"]}"));
    assert_eq!(
        r,
        Ok(Some(vec![(
            "Lunch".to_string(),
            vec!["Soup".to_string(), "Bread".to_string()]
        )]))
    );
}

#[test]
fn menu_meal_with_two_meals_holds_both() {
    let r = deserialize_menu_meal(&text("{\"Lunch\": [\"Soup\"], \"Dinner\": []}"))
        .unwrap()
        .unwrap();
    assert_eq!(r.len(), 2);
    let lunch = r.iter().find(|p| p.0 == "Lunch").unwrap();
    assert_eq!(lunch.1, vec!["Soup".to_string()]);
    let dinner = r.iter().find(|p| p.0 == "Dinner").unwrap();
    assert!(dinner.1.is_empty());
}

#[test]
fn menu_meal_placeholders_are_absent() {
    assert_eq!(deserialize_menu_meal(&JsonField::Bool(false)), Ok(None));
    assert_eq!(deserialize_menu_meal(&JsonField::Null), Ok(None));
    assert_eq!(deserialize_menu_meal(&JsonField::Missing), Ok(None));
}

#[test]
fn menu_meal_number_is_an_error() {
    assert_eq!(
        deserialize_menu_meal(&JsonField::Number),
        Err(DecodeError::UnsupportedMenuMeal)
    );
}

#[test]
fn menu_meal_text_that_is_not_an_object_is_an_error() {
    assert_eq!(
        deserialize_menu_meal(&text("[\"Soup\"]")),
        Err(DecodeError::MalformedMenuMeal)
    );
}

#[test]
fn decode_hall_fills_the_menus_and_keeps_the_rest() {
    let mut r = raw("Worcester", text("[\"Pizza\"]"), JsonField::Null);
    r.info.location_id = 7;
    r.info.menu = Some(vec!["stale".to_string()]);
    let h = decode_hall(r).unwrap();
    assert_eq!(h.location_title, "Worcester");
    assert_eq!(h.location_id, 7);
    assert_eq!(h.menu, Some(vec!["Pizza".to_string()]));
    assert_eq!(h.menu_meal, None);
}

#[test]
fn decode_hall_reports_the_menu_error_first() {
    let r = raw("Worcester", JsonField::Number, JsonField::Number);
    assert_eq!(decode_hall(r), Err(DecodeError::UnsupportedMenu));
}

#[test]
fn decode_halls_keeps_the_order() {
    let v = decode_halls(vec![
        raw("Worcester", JsonField::Missing, JsonField::Missing),
        raw("Hampshire", JsonField::Bool(false), JsonField::Null),
    ])
    .unwrap();
    assert_eq!(v.len(), 2);
    assert_eq!(v[0].location_title, "Worcester");
    assert_eq!(v[1].location_title, "Hampshire");
}

#[test]
fn decode_halls_rejects_on_the_first_bad_hall() {
    let r = decode_halls(vec![
        raw("Worcester", JsonField::Missing, JsonField::Missing),
        raw("Hampshire", JsonField::Missing, JsonField::Number),
        raw("Berkshire", JsonField::Number, JsonField::Missing),
    ]);
    assert_eq!(r, Err(DecodeError::UnsupportedMenuMeal));
}

#[test]
fn decode_halls_of_an_empty_list_is_empty() {
    assert_eq!(decode_halls(vec![]), Ok(vec![]));
}
