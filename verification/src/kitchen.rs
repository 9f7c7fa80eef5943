//! Kitchen entries: the answers to their requests, and the columns of a new
//! entry, whose dates the service fills in.

use vstd::prelude::*;
use crate::day::{add_days, today, valid_day};
use crate::models::{CreateKitchenEntry, Ingredient, KitchenEntry};
use crate::reply::{Body, DbError, Reply, STATUS_CREATED, STATUS_INTERNAL_SERVER_ERROR, deleted,
    deleted_reply, found, found_reply, is_error_reply, listed, listed_reply, server_error};

verus! {

/// What the answers to a lookup or a deletion say when there is no such entry.
pub const ENTRY_NOT_FOUND: &'static str = "Entry not found";

/// What the answer to a change says when there is no such entry.
pub const CHANGED_ENTRY_NOT_FOUND: &'static str = "Ingredient not found";

/// The answer to a change of a kitchen entry: the changed row with `200`,
/// `404` when no entry has the id, `500` with the failure's message.
pub fn update_one(result: Result<Option<KitchenEntry>, DbError>) -> (r: Reply<KitchenEntry>)
    ensures
        found_reply(r, result, CHANGED_ENTRY_NOT_FOUND@),
{
    found(result, CHANGED_ENTRY_NOT_FOUND)
}

/// The answer to the deletion of a kitchen entry, given the id of the row
/// it removed: `204` with no body, `404` when none, `500` with the failure's
/// message.
pub fn delete_one(result: Result<Option<u128>, DbError>) -> (r: Reply<()>)
    ensures
        deleted_reply(r, result, ENTRY_NOT_FOUND@),
{
    deleted(result, ENTRY_NOT_FOUND)
}

/// The answer to a lookup of a kitchen entry: the row with `200`, `404`
/// when none, `500` with the failure's message.
pub fn get_one(result: Result<Option<KitchenEntry>, DbError>) -> (r: Reply<KitchenEntry>)
    ensures
        found_reply(r, result, ENTRY_NOT_FOUND@),
{
    found(result, ENTRY_NOT_FOUND)
}

/// The answer to a listing of the kitchen entries (oldest first): the rows
/// with `200`, or `500` with the failure's message.
pub fn get_all(result: Result<Vec<KitchenEntry>, DbError>) -> (r: Reply<Vec<KitchenEntry>>)
    ensures
        listed_reply(r, result),
{
    listed(result)
}

/// The answer to the insertion of a kitchen entry: the new row with `201`,
/// or `500` with the failure's message.
pub fn create(result: Result<KitchenEntry, DbError>) -> (r: Reply<KitchenEntry>)
    ensures
        match result {
            Ok(row) => r == Reply { status: STATUS_CREATED, body: Body::Json(row) },
            Err(e) => is_error_reply(r, STATUS_INTERNAL_SERVER_ERROR, e.message@),
        },
{
    match result {
        Ok(row) => Reply { status: STATUS_CREATED, body: Body::Json(row) },
        Err(e) => server_error(e),
    }
}

/// The columns of a new kitchen row.
#[derive(Debug, Clone, PartialEq)]
pub struct NewKitchenEntry {
    pub ingredient_id: u128,
    pub quantity: u64,
    pub unit: String,
    pub purchased_on: i32,
    pub expires_on: Option<i32>,
    pub opened: bool,
}

/// What a request to create a kitchen entry leads to.
#[derive(Debug, Clone, PartialEq)]
pub enum KitchenCreate {
    /// Insert these columns.
    Insert(NewKitchenEntry),
    /// Look up the entry's ingredient, for its shelf life, then insert these
    /// columns with the expiry date it gives.
    Lookup(NewKitchenEntry),
}

/// The columns that a request leads to, either way.
pub open spec fn planned_entry(plan: KitchenCreate) -> NewKitchenEntry {
    match plan {
        KitchenCreate::Insert(entry) => entry,
        KitchenCreate::Lookup(entry) => entry,
    }
}

/// The columns of a new entry, given the request and the date to use when
/// it names no purchase date: as given, unopened unless it says otherwise.
/// An entry with an expiry date is inserted at once; one without waits for
/// its ingredient's shelf life.
pub open spec fn plan_entry(body: CreateKitchenEntry, purchase_fallback: i32) -> KitchenCreate {
    let entry = NewKitchenEntry {
        ingredient_id: body.ingredient_id,
        quantity: body.quantity,
        unit: body.unit,
        purchased_on: match body.purchased_on {
            Some(d) => d,
            None => purchase_fallback,
        },
        expires_on: body.expires_on,
        opened: match body.opened {
            Some(b) => b,
            None => false,
        },
    };
    match body.expires_on {
        Some(_) => KitchenCreate::Insert(entry),
        None => KitchenCreate::Lookup(entry),
    }
}

/// The columns of a new entry; see `plan_entry`.
pub fn plan(body: CreateKitchenEntry, purchase_fallback: i32) -> (r: KitchenCreate)
    ensures
        r == plan_entry(body, purchase_fallback),
        planned_entry(r).ingredient_id == body.ingredient_id,
        planned_entry(r).quantity == body.quantity,
        planned_entry(r).unit == body.unit,
        planned_entry(r).expires_on == body.expires_on,
        body.purchased_on matches Some(d) ==> planned_entry(r).purchased_on == d,
        body.purchased_on is None ==> planned_entry(r).purchased_on == purchase_fallback,
        body.opened matches Some(b) ==> planned_entry(r).opened == b,
        body.opened is None ==> !planned_entry(r).opened,
        r is Insert <==> body.expires_on is Some,
{
    proof {
        lemma_plan_entry(body, purchase_fallback);
    }
    let CreateKitchenEntry { ingredient_id, quantity, unit, purchased_on, expires_on, opened } = body;
    let purchased_on = match purchased_on {
        Some(d) => d,
        None => purchase_fallback,
    };
    let opened = match opened {
        Some(b) => b,
        None => false,
    };
    let entry = NewKitchenEntry { ingredient_id, quantity, unit, purchased_on, expires_on, opened };
    match expires_on {
        Some(_) => KitchenCreate::Insert(entry),
        None => KitchenCreate::Lookup(entry),
    }
}

/// The columns of a new entry, with today's date where the request names no
/// purchase date; the clock is read only then.
pub fn create_start(body: CreateKitchenEntry) -> (r: KitchenCreate)
    ensures
        r == plan_entry(body, planned_entry(r).purchased_on),
        body.purchased_on is None ==> valid_day(planned_entry(r).purchased_on as int),
{
    let fallback = match body.purchased_on {
        Some(d) => d,
        None => today(),
    };
    plan(body, fallback)
}

/// The shelf life that a lookup of an ingredient gives: none when the
/// ingredient is missing, has none, or the lookup failed.
pub open spec fn shelf_life(lookup: Result<Option<Ingredient>, DbError>) -> Option<i32> {
    match lookup {
        Ok(Some(ingredient)) => ingredient.shelf_life_days,
        _ => None,
    }
}

/// The expiry date lies within the calendar wherever there is one to compute.
pub open spec fn expiry_in_range(entry: NewKitchenEntry, lookup: Result<Option<Ingredient>, DbError>) -> bool {
    shelf_life(lookup) matches Some(days) ==> valid_day(entry.purchased_on as int) && valid_day(
        entry.purchased_on + days,
    )
}

/// The entry with the expiry date that its ingredient's shelf life gives:
/// the purchase date plus the shelf life, or none.
pub fn with_shelf_life(entry: NewKitchenEntry, lookup: Result<Option<Ingredient>, DbError>) -> (r: NewKitchenEntry)
    requires
        expiry_in_range(entry, lookup),
    ensures
        r == (NewKitchenEntry {
            expires_on: match shelf_life(lookup) {
                Some(days) => Some((entry.purchased_on + days) as i32),
                None => None,
            },
            ..entry
        }),
{
    let days = match lookup {
        Ok(Some(ingredient)) => ingredient.shelf_life_days,
        _ => None,
    };
    let expires_on = match days {
        Some(n) => Some(add_days(entry.purchased_on, n)),
        None => None,
    };
    NewKitchenEntry { expires_on, ..entry }
}

/// A new kitchen entry gets the request's ingredient, quantity, unit and
/// expiry date; its purchase date is the request's, or the fallback where it
/// names none; it is opened only where the request says so. It is inserted at
/// once exactly when the request names an expiry date; otherwise its
/// ingredient is looked up first.
pub proof fn lemma_plan_entry(body: CreateKitchenEntry, purchase_fallback: i32)
    ensures ({
        let plan = plan_entry(body, purchase_fallback);
        let entry = planned_entry(plan);
        &&& entry.ingredient_id == body.ingredient_id
        &&& entry.quantity == body.quantity
        &&& entry.unit == body.unit
        &&& entry.expires_on == body.expires_on
        &&& (body.purchased_on matches Some(d) ==> entry.purchased_on == d)
        &&& (body.purchased_on is None ==> entry.purchased_on == purchase_fallback)
        &&& (body.opened matches Some(b) ==> entry.opened == b)
        &&& (body.opened is None ==> !entry.opened)
        &&& (plan is Insert <==> body.expires_on is Some)
        &&& (plan is Lookup <==> body.expires_on is None)
    }),
{
}

/// The shelf life that a lookup gives is the ingredient's, when the lookup
/// found it; a missing ingredient or a failed lookup gives none.
pub proof fn lemma_shelf_life(lookup: Result<Option<Ingredient>, DbError>)
    ensures
        lookup matches Ok(Some(ingredient)) ==> shelf_life(lookup) == ingredient.shelf_life_days,
        lookup matches Ok(None) ==> shelf_life(lookup) is None,
        lookup is Err ==> shelf_life(lookup) is None,
{
}

} // verus!
