//! Meal plans: the answers to their requests.

use vstd::prelude::*;
use crate::models::MealPlan;
use crate::reply::{Body, DbError, Reply, STATUS_CREATED, STATUS_INTERNAL_SERVER_ERROR, deleted,
    deleted_reply, found, found_reply, is_error_reply, listed, listed_reply, server_error};

verus! {

/// What a meal plan's answers say when there is no such meal plan.
pub const MEAL_PLAN_NOT_FOUND: &'static str = "Meal plan not found";

/// The answer to a change of a meal plan: the changed row with `200`, `404`
/// when no meal plan has the id, `500` with the failure's message.
pub fn update_one(result: Result<Option<MealPlan>, DbError>) -> (r: Reply<MealPlan>)
    ensures
        found_reply(r, result, MEAL_PLAN_NOT_FOUND@),
{
    found(result, MEAL_PLAN_NOT_FOUND)
}

/// The answer to the deletion of a meal plan, given the id of the row it
/// removed: `204` with no body, `404` when none, `500` with the failure's
/// message.
pub fn delete_one(result: Result<Option<u128>, DbError>) -> (r: Reply<()>)
    ensures
        deleted_reply(r, result, MEAL_PLAN_NOT_FOUND@),
{
    deleted(result, MEAL_PLAN_NOT_FOUND)
}

/// The answer to the creation of a meal plan: `201` with no body, or `500`
/// with the failure's message. The new row is not sent back.
pub fn create(result: Result<MealPlan, DbError>) -> (r: Reply<MealPlan>)
    ensures
        match result {
            Ok(_) => r == Reply::<MealPlan> { status: STATUS_CREATED, body: Body::Empty },
            Err(e) => is_error_reply(r, STATUS_INTERNAL_SERVER_ERROR, e.message@),
        },
{
    match result {
        Ok(_) => Reply { status: STATUS_CREATED, body: Body::Empty },
        Err(e) => server_error(e),
    }
}

/// The answer to a lookup of a meal plan: the row with `200`, `404` when
/// none, `500` with the failure's message.
pub fn get_one(result: Result<Option<MealPlan>, DbError>) -> (r: Reply<MealPlan>)
    ensures
        found_reply(r, result, MEAL_PLAN_NOT_FOUND@),
{
    found(result, MEAL_PLAN_NOT_FOUND)
}

/// The answer to a listing of the meal plans (by date): the rows with
/// `200`, or `500` with the failure's message.
pub fn get_all(result: Result<Vec<MealPlan>, DbError>) -> (r: Reply<Vec<MealPlan>>)
    ensures
        listed_reply(r, result),
{
    listed(result)
}

} // verus!
