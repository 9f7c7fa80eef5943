//! Ingredients: the answers to their requests.

use vstd::prelude::*;
use crate::models::Ingredient;
use crate::reply::{Body, DbError, Reply, STATUS_CONFLICT, STATUS_CREATED, STATUS_INTERNAL_SERVER_ERROR,
    deleted, deleted_reply, found, found_reply, is_error_reply, listed, listed_reply, server_error};

verus! {

/// What an ingredient's answers say when there is no such ingredient.
pub const INGREDIENT_NOT_FOUND: &'static str = "Ingredient not found";

/// The unique constraint on ingredient names.
pub const NAME_CONSTRAINT: &'static str = "ingredients_name_key";

/// What the answer says when a new ingredient's name is taken.
pub const NAME_TAKEN: &'static str = "An ingredient with that name already exists";

/// The answer to a change of an ingredient: the changed row with `200`,
/// `404` when no ingredient has the id, `500` with the failure's message.
pub fn update_one(result: Result<Option<Ingredient>, DbError>) -> (r: Reply<Ingredient>)
    ensures
        found_reply(r, result, INGREDIENT_NOT_FOUND@),
{
    found(result, INGREDIENT_NOT_FOUND)
}

/// The answer to the deletion of an ingredient, given the id of the row it
/// removed: `204` with no body, `404` when none, `500` with the failure's
/// message.
pub fn delete_one(result: Result<Option<u128>, DbError>) -> (r: Reply<()>)
    ensures
        deleted_reply(r, result, INGREDIENT_NOT_FOUND@),
{
    deleted(result, INGREDIENT_NOT_FOUND)
}

/// The answer to a lookup of an ingredient: the row with `200`, `404` when
/// none, `500` with the failure's message.
pub fn get_one(result: Result<Option<Ingredient>, DbError>) -> (r: Reply<Ingredient>)
    ensures
        found_reply(r, result, INGREDIENT_NOT_FOUND@),
{
    found(result, INGREDIENT_NOT_FOUND)
}

/// The answer to a listing of the ingredients (by name): the rows with
/// `200`, or `500` with the failure's message.
pub fn get_all(result: Result<Vec<Ingredient>, DbError>) -> (r: Reply<Vec<Ingredient>>)
    ensures
        listed_reply(r, result),
{
    listed(result)
}

/// Whether a failure is the violation of the unique constraint on names.
pub open spec fn name_taken(e: DbError) -> bool {
    e.constraint matches Some(c) && c@ == NAME_CONSTRAINT@
}

/// A failure counts as a taken name exactly when it names the unique
/// constraint on ingredient names.
pub proof fn lemma_name_taken(e: DbError)
    ensures
        name_taken(e) <==> (e.constraint is Some && e.constraint->0@ == NAME_CONSTRAINT@),
{
}

/// The answer to the creation of an ingredient: the new row with `201`;
/// `409` when the name is taken; `500` with the message of any other failure.
pub fn create(result: Result<Ingredient, DbError>) -> (r: Reply<Ingredient>)
    ensures
        match result {
            Ok(row) => r == Reply { status: STATUS_CREATED, body: Body::Json(row) },
            Err(e) => if name_taken(e) {
                is_error_reply(r, STATUS_CONFLICT, NAME_TAKEN@)
            } else {
                is_error_reply(r, STATUS_INTERNAL_SERVER_ERROR, e.message@)
            },
        },
{
    match result {
        Ok(row) => Reply { status: STATUS_CREATED, body: Body::Json(row) },
        Err(e) => {
            let key = NAME_CONSTRAINT.to_string();
            let taken = match &e.constraint {
                Some(c) => *c == key,
                None => false,
            };
            if taken {
                Reply { status: STATUS_CONFLICT, body: Body::Error(NAME_TAKEN.to_string()) }
            } else {
                server_error(e)
            }
        },
    }
}

} // verus!
