use kdb_backend::health::{report, HealthResponse};
use kdb_backend::ingredients;
use kdb_backend::meal_plan;
use kdb_backend::models::{Ingredient, MealPlan};
use kdb_backend::reply::{deleted, found, listed, Body, DbError, Reply};

fn failure(message: &str) -> DbError {
    DbError { message: message.to_string(), constraint: None }
}

fn salt() -> Ingredient {
    Ingredient {
        id: 7,
        name: "salt".to_string(),
        category: Some("spice".to_string()),
        default_unit: Some("g".to_string()),
        shelf_life_days: None,
        storage: None,
        created_at: 1_700_000_000_000_000,
    }
}

fn dinner() -> MealPlan {
    MealPlan {
        id: 3,
        plan_date: 739_000,
        meal_slot: "dinner".to_string(),
        recipe_id: Some(11),
        custom_meal: None,
        notes: None,
        created_at: None,
    }
}

#[test]
fn found_row_is_ok() {
    let r = found(Ok(Some(5u8)), "gone");
    assert_eq!(r, Reply { status: 200, body: Body::Json(5u8) });
}

#[test]
fn found_nothing_is_not_found() {
    let r: Reply<u8> = found(Ok(None), "gone");
    assert_eq!(r, Reply { status: 404, body: Body::Error("gone".to_string()) });
}

#[test]
fn found_failure_is_server_error() {
    let r: Reply<u8> = found(Err(failure("pool timed out")), "gone");
    assert_eq!(r, Reply { status: 500, body: Body::Error("pool timed out".to_string()) });
}

#[test]
fn deleted_row_is_no_content() {
    assert_eq!(deleted(Ok(Some(1u128)), "gone"), Reply { status: 204, body: Body::Empty });
    assert_eq!(deleted::<u128>(Ok(None), "gone"), Reply { status: 404, body: Body::Error("gone".to_string()) });
    assert_eq!(
        deleted::<u128>(Err(failure("boom")), "gone"),
        Reply { status: 500, body: Body::Error("boom".to_string()) }
    );
}

#[test]
fn listing_keeps_rows_in_order() {
    assert_eq!(listed(Ok(vec![3, 1, 2])), Reply { status: 200, body: Body::Json(vec![3, 1, 2]) });
    assert_eq!(
        listed::<u8>(Err(failure("boom"))),
        Reply { status: 500, body: Body::Error("boom".to_string()) }
    );
}

#[test]
fn ingredient_lookups() {
    assert_eq!(ingredients::get_one(Ok(Some(salt()))), Reply { status: 200, body: Body::Json(salt()) });
    assert_eq!(
        ingredients::get_one(Ok(None)),
        Reply { status: 404, body: Body::Error("Ingredient not found".to_string()) }
    );
    assert_eq!(
        ingredients::update_one(Ok(None)),
        Reply { status: 404, body: Body::Error("Ingredient not found".to_string()) }
    );
    assert_eq!(ingredients::update_one(Ok(Some(salt()))).status, 200);
    assert_eq!(ingredients::delete_one(Ok(Some(7))), Reply { status: 204, body: Body::Empty });
    assert_eq!(
        ingredients::delete_one(Ok(None)),
        Reply { status: 404, body: Body::Error("Ingredient not found".to_string()) }
    );
    assert_eq!(ingredients::get_all(Ok(vec![salt()])), Reply { status: 200, body: Body::Json(vec![salt()]) });
}

#[test]
fn ingredient_created() {
    assert_eq!(ingredients::create(Ok(salt())), Reply { status: 201, body: Body::Json(salt()) });
}

#[test]
fn ingredient_name_taken_is_conflict() {
    let e = DbError {
        message: "duplicate key value violates unique constraint".to_string(),
        constraint: Some("ingredients_name_key".to_string()),
    };
    assert_eq!(
        ingredients::create(Err(e)),
        Reply { status: 409, body: Body::Error("An ingredient with that name already exists".to_string()) }
    );
}

#[test]
fn ingredient_other_constraint_is_server_error() {
    let e = DbError {
        message: "check violated".to_string(),
        constraint: Some("ingredients_shelf_life_check".to_string()),
    };
    assert_eq!(
        ingredients::create(Err(e)),
        Reply { status: 500, body: Body::Error("check violated".to_string()) }
    );
    assert_eq!(
        ingredients::create(Err(failure("connection reset"))),
        Reply { status: 500, body: Body::Error("connection reset".to_string()) }
    );
}

#[test]
fn meal_plan_created_has_no_body() {
    assert_eq!(meal_plan::create(Ok(dinner())), Reply { status: 201, body: Body::Empty });
    assert_eq!(
        meal_plan::create(Err(failure("boom"))),
        Reply { status: 500, body: Body::Error("boom".to_string()) }
    );
}

#[test]
fn meal_plan_lookups() {
    assert_eq!(meal_plan::get_one(Ok(Some(dinner()))), Reply { status: 200, body: Body::Json(dinner()) });
    assert_eq!(
        meal_plan::get_one(Ok(None)),
        Reply { status: 404, body: Body::Error("Meal plan not found".to_string()) }
    );
    assert_eq!(
        meal_plan::update_one(Ok(None)),
        Reply { status: 404, body: Body::Error("Meal plan not found".to_string()) }
    );
    assert_eq!(
        meal_plan::delete_one(Ok(None)),
        Reply { status: 404, body: Body::Error("Meal plan not found".to_string()) }
    );
    assert_eq!(meal_plan::delete_one(Ok(Some(3))), Reply { status: 204, body: Body::Empty });
    assert_eq!(meal_plan::get_all(Ok(vec![])), Reply { status: 200, body: Body::Json(Vec::<MealPlan>::new()) });
}

#[test]
fn health_reports_database_state() {
    let r = report(false, "0.1.0".to_string());
    assert_eq!(
        r,
        Reply {
            status: 200,
            body: Body::Json(HealthResponse {
                status: "Ok".to_string(),
                version: "0.1.0".to_string(),
                database: false
            })
        }
    );
    assert_eq!(report(true, "2".to_string()).body, Body::Json(HealthResponse {
        status: "Ok".to_string(),
        version: "2".to_string(),
        database: true
    }));
}
