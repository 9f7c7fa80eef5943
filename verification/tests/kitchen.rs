use chrono::{Datelike, NaiveDate};
use kdb_backend::day::{add_days, today, MAX_DAY, MIN_DAY};
use kdb_backend::kitchen::{
    create, create_start, delete_one, get_one, plan, update_one, with_shelf_life, KitchenCreate, NewKitchenEntry,
};
use kdb_backend::models::{CreateKitchenEntry, Ingredient, KitchenEntry};
use kdb_backend::reply::{Body, DbError, Reply};

fn day(y: i32, m: u32, d: u32) -> i32 {
    NaiveDate::from_ymd_opt(y, m, d).unwrap().num_days_from_ce()
}

fn request(purchased_on: Option<i32>, expires_on: Option<i32>, opened: Option<bool>) -> CreateKitchenEntry {
    CreateKitchenEntry {
        ingredient_id: 42,
        quantity: 2.5f64.to_bits(),
        unit: "kg".to_string(),
        purchased_on,
        expires_on,
        opened,
    }
}

fn flour(shelf_life_days: Option<i32>) -> Ingredient {
    Ingredient {
        id: 42,
        name: "flour".to_string(),
        category: None,
        default_unit: None,
        shelf_life_days,
        storage: None,
        created_at: 0,
    }
}

fn pending(purchased_on: i32) -> NewKitchenEntry {
    NewKitchenEntry {
        ingredient_id: 42,
        quantity: 2.5f64.to_bits(),
        unit: "kg".to_string(),
        purchased_on,
        expires_on: None,
        opened: false,
    }
}

#[test]
fn day_range_is_chronos() {
    assert_eq!(MIN_DAY, NaiveDate::MIN.num_days_from_ce());
    assert_eq!(MAX_DAY, NaiveDate::MAX.num_days_from_ce());
}

#[test]
fn adding_days_crosses_months() {
    assert_eq!(add_days(day(2024, 1, 30), 7), day(2024, 2, 6));
    assert_eq!(add_days(day(2024, 3, 1), -1), day(2024, 2, 29));
    assert_eq!(add_days(MAX_DAY - 3, 3), MAX_DAY);
}

#[test]
fn today_is_the_local_date() {
    let before = chrono::Local::now().date_naive().num_days_from_ce();
    let t = today();
    let after = chrono::Local::now().date_naive().num_days_from_ce();
    assert!(before <= t && t <= after);
}

#[test]
fn entry_with_expiry_is_inserted_at_once() {
    let r = plan(request(Some(day(2024, 5, 1)), Some(day(2024, 6, 1)), None), 0);
    assert_eq!(
        r,
        KitchenCreate::Insert(NewKitchenEntry {
            ingredient_id: 42,
            quantity: 2.5f64.to_bits(),
            unit: "kg".to_string(),
            purchased_on: day(2024, 5, 1),
            expires_on: Some(day(2024, 6, 1)),
            opened: false,
        })
    );
}

#[test]
fn entry_without_expiry_looks_up_its_ingredient() {
    let r = plan(request(None, None, Some(true)), day(2024, 5, 3));
    let mut expected = pending(day(2024, 5, 3));
    expected.opened = true;
    assert_eq!(r, KitchenCreate::Lookup(expected));
}

#[test]
fn given_purchase_date_wins_over_fallback() {
    let r = create_start(request(Some(day(2020, 2, 2)), None, None));
    assert_eq!(r, KitchenCreate::Lookup(pending(day(2020, 2, 2))));
}

#[test]
fn missing_purchase_date_is_today() {
    let before = chrono::Local::now().date_naive().num_days_from_ce();
    let r = create_start(request(None, Some(day(2030, 1, 1)), None));
    let after = chrono::Local::now().date_naive().num_days_from_ce();
    match r {
        KitchenCreate::Insert(entry) => assert!(before <= entry.purchased_on && entry.purchased_on <= after),
        KitchenCreate::Lookup(_) => panic!("an entry with an expiry date is inserted at once"),
    }
}

#[test]
fn shelf_life_sets_expiry() {
    let entry = with_shelf_life(pending(day(2024, 12, 28)), Ok(Some(flour(Some(10)))));
    assert_eq!(entry.expires_on, Some(day(2025, 1, 7)));
    assert_eq!(entry.purchased_on, day(2024, 12, 28));
}

#[test]
fn no_shelf_life_no_expiry() {
    let start = day(2024, 12, 28);
    assert_eq!(with_shelf_life(pending(start), Ok(Some(flour(None)))).expires_on, None);
    assert_eq!(with_shelf_life(pending(start), Ok(None)).expires_on, None);
    let e = DbError { message: "boom".to_string(), constraint: None };
    assert_eq!(with_shelf_life(pending(start), Err(e)).expires_on, None);
}

fn row() -> KitchenEntry {
    KitchenEntry {
        id: 9,
        ingredient_id: 42,
        quantity: 1.0f64.to_bits(),
        unit: "kg".to_string(),
        purchased_on: day(2024, 1, 1),
        expires_on: None,
        opened: false,
        created_at: 0,
    }
}

#[test]
fn kitchen_replies() {
    assert_eq!(create(Ok(row())), Reply { status: 201, body: Body::Json(row()) });
    let e = DbError { message: "insert failed".to_string(), constraint: None };
    assert_eq!(create(Err(e)), Reply { status: 500, body: Body::Error("insert failed".to_string()) });
    assert_eq!(get_one(Ok(None)), Reply { status: 404, body: Body::Error("Entry not found".to_string()) });
    assert_eq!(delete_one(Ok(None)), Reply { status: 404, body: Body::Error("Entry not found".to_string()) });
    assert_eq!(
        update_one(Ok(None)),
        Reply { status: 404, body: Body::Error("Ingredient not found".to_string()) }
    );
    assert_eq!(update_one(Ok(Some(row()))), Reply { status: 200, body: Body::Json(row()) });
}
