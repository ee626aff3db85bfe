use rust_web_app::forms::date_not_in_future;
use rust_web_app::{Date, NewAddress, NewPerson, UpdatePerson};

fn today() -> Date {
    let now = time::OffsetDateTime::now_utc().date();
    Date { year: now.year(), month: u8::from(now.month()), day: now.day() }
}

fn date(year: i32, month: u8, day: u8) -> Date {
    Date { year, month, day }
}

#[test]
fn new_person_is_valid_when_dob_is_in_the_future() {
    let new_person = NewPerson {
        first_name: "John".to_owned(),
        family_name: "Doe".to_owned(),
        date_of_birth: date(1900, 1, 1),
    };

    assert!(new_person.validate(&today()).is_ok(), "Should be a valid person");
}

#[test]
fn new_person_is_invalid_when_dob_is_in_the_future() {
    let new_person = NewPerson {
        first_name: "John".to_owned(),
        family_name: "Doe".to_owned(),
        date_of_birth: date(2050, 1, 1),
    };

    assert!(new_person.validate(&today()).is_err(), "Should return a validation error");
}

#[test]
fn born_today_is_not_in_the_future() {
    let today = date(2024, 6, 15);
    let person = |d: Date| NewPerson {
        first_name: "Ann".to_owned(),
        family_name: "Lee".to_owned(),
        date_of_birth: d,
    };
    assert!(person(date(2024, 6, 15)).validate(&today).is_ok());
    assert_eq!(person(date(2024, 6, 16)).validate(&today).unwrap_err(), vec![("date_of_birth", "date_not_in_future")]);
    assert_eq!(person(date(2024, 7, 1)).validate(&today).unwrap_err(), vec![("date_of_birth", "date_not_in_future")]);
    assert!(person(date(2023, 12, 31)).validate(&today).is_ok());
}

#[test]
fn person_names_must_have_one_to_sixty_four_characters() {
    let today = date(2024, 6, 15);
    let p = NewPerson {
        first_name: String::new(),
        family_name: "é".repeat(65),
        date_of_birth: date(2030, 1, 1),
    };
    assert_eq!(p.validate(&today).unwrap_err(), vec![
            ("first_name", "length"),
            ("family_name", "length"),
            ("date_of_birth", "date_not_in_future")
        ]);
    let p = NewPerson {
        first_name: "é".repeat(64),
        family_name: "x".to_owned(),
        date_of_birth: date(2000, 1, 1),
    };
    assert!(p.validate(&today).is_ok());
}

#[test]
fn update_checks_only_present_fields() {
    let today = date(2024, 6, 15);
    let none = UpdatePerson { first_name: None, family_name: None, date_of_birth: None };
    assert!(none.validate(&today).is_ok());
    let bad = UpdatePerson {
        first_name: Some(String::new()),
        family_name: Some("Doe".to_owned()),
        date_of_birth: Some(date(2025, 1, 1)),
    };
    assert_eq!(bad.validate(&today).unwrap_err(), vec![("first_name", "length"), ("date_of_birth", "date_not_in_future")]);
}

#[test]
fn address_fields_have_bounded_lengths() {
    let ok = NewAddress {
        building: "1".to_owned(),
        street: None,
        town_or_city: Some("Leeds".to_owned()),
        postcode: "LS1 4AP".to_owned(),
    };
    assert!(ok.validate().is_ok());
    let bad = NewAddress {
        building: String::new(),
        street: Some(String::new()),
        town_or_city: Some("t".repeat(65)),
        postcode: "123456789".to_owned(),
    };
    assert_eq!(bad.validate().unwrap_err(), vec![
            ("building", "length"),
            ("street", "length"),
            ("town_or_city", "length"),
            ("postcode", "length")
        ]);
    let edge = NewAddress {
        building: "b".repeat(64),
        street: Some("s".repeat(64)),
        town_or_city: None,
        postcode: "12345678".to_owned(),
    };
    assert!(edge.validate().is_ok());
}

#[test]
fn future_date_breaks_the_date_rule() {
    let today = date(2024, 6, 15);
    assert_eq!(date_not_in_future(&date(2024, 6, 16), &today), Err("date_not_in_future"));
    assert_eq!(date_not_in_future(&date(2025, 1, 1), &today), Err("date_not_in_future"));
    assert_eq!(date_not_in_future(&date(2024, 6, 15), &today), Ok(()));
    assert_eq!(date_not_in_future(&date(1900, 1, 1), &today), Ok(()));
}
