//! The rows and request bodies of the service, in plain values.
//!
//! Ids are the 128 bits of a UUID. Dates are day numbers (see `day`).
//! Timestamps are microseconds since 1970-01-01 00:00 UTC. A kitchen
//! quantity is the bit pattern of its `f64`; a recipe quantity is the decimal
//! number as text. The service reads none of these but to carry them.

use vstd::prelude::*;

verus! {

// ------------- INGREDIENTS -------------

/// An ingredient row.
#[derive(Debug, Clone, PartialEq)]
pub struct Ingredient {
    pub id: u128,
    pub name: String,
    pub category: Option<String>,
    pub default_unit: Option<String>,
    pub shelf_life_days: Option<i32>,
    pub storage: Option<String>,
    pub created_at: i64,
}

/// The body of a request that creates an ingredient.
#[derive(Debug, Clone, PartialEq)]
pub struct CreateIngredient {
    pub name: String,
    pub category: Option<String>,
    pub default_unit: Option<String>,
    pub shelf_life_days: Option<i32>,
    pub storage: Option<String>,
}

/// The body of a request that changes an ingredient: each field given
/// replaces the stored one.
#[derive(Debug, Clone, PartialEq)]
pub struct UpdateIngredient {
    pub name: Option<String>,
    pub category: Option<String>,
    pub default_unit: Option<String>,
    pub shelf_life_days: Option<i32>,
    pub storage: Option<String>,
}

// --------- KITCHEN ---------

/// A kitchen row: an amount of an ingredient on hand.
#[derive(Debug, Clone, PartialEq)]
pub struct KitchenEntry {
    pub id: u128,
    pub ingredient_id: u128,
    pub quantity: u64,
    pub unit: String,
    pub purchased_on: i32,
    pub expires_on: Option<i32>,
    pub opened: bool,
    pub created_at: i64,
}

/// The body of a request that creates a kitchen entry.
#[derive(Debug, Clone, PartialEq)]
pub struct CreateKitchenEntry {
    pub ingredient_id: u128,
    pub quantity: u64,
    pub unit: String,
    pub purchased_on: Option<i32>,
    pub expires_on: Option<i32>,
    pub opened: Option<bool>,
}

/// The body of a request that changes a kitchen entry.
#[derive(Debug, Clone, PartialEq)]
pub struct UpdateKitchenEntry {
    pub quantity: Option<u64>,
    pub unit: Option<String>,
    pub purchased_on: Option<i32>,
    pub expires_on: Option<i32>,
    pub opened: Option<bool>,
}

// --------- RECIPES ---------

/// A recipe row.
#[derive(Debug, Clone, PartialEq)]
pub struct Recipe {
    pub id: u128,
    pub name: String,
    pub description: Option<String>,
    pub servings: i32,
    pub prep_time_mins: Option<i32>,
    pub cook_time_mins: Option<i32>,
    pub total_time_mins: Option<i32>,
    pub difficulty: Option<String>,
    pub cuisine: Option<String>,
    pub meal_type: Option<String>,
    pub source: Option<String>,
    pub created_at: Option<i64>,
    pub updated_at: Option<i64>,
}

/// The body of a request that changes a recipe.
#[derive(Debug, Clone, PartialEq)]
pub struct UpdateRecipe {
    pub name: Option<String>,
    pub description: Option<String>,
    pub servings: Option<i32>,
    pub prep_time_mins: Option<i32>,
    pub cook_time_mins: Option<i32>,
    pub difficulty: Option<String>,
    pub cuisine: Option<String>,
    pub meal_type: Option<String>,
    pub source: Option<String>,
}

/// A row of a recipe's ingredient list.
#[derive(Debug, Clone, PartialEq)]
pub struct RecipeIngredient {
    pub id: u128,
    pub recipe_id: u128,
    pub ingredient_id: Option<u128>,
    pub custom_name: Option<String>,
    pub quantity: String,
    pub unit: Option<String>,
    pub preparation: Option<String>,
    pub optional: Option<bool>,
    pub sort_order: i32,
}

/// A row of a recipe's method.
#[derive(Debug, Clone, PartialEq)]
pub struct RecipeStep {
    pub id: u128,
    pub recipe_id: u128,
    pub step_number: i32,
    pub instruction: String,
    pub timer_mins: Option<i32>,
}

/// A recipe with its ingredients, steps and tags.
#[derive(Debug, Clone, PartialEq)]
pub struct RecipeDetail {
    pub recipe: Recipe,
    pub ingredients: Vec<RecipeIngredient>,
    pub steps: Vec<RecipeStep>,
    pub tags: Vec<String>,
}

/// The body of a request that creates a recipe, with its parts.
#[derive(Debug, Clone, PartialEq)]
pub struct CreateRecipe {
    pub name: String,
    pub description: Option<String>,
    pub servings: Option<i32>,
    pub prep_time_mins: Option<i32>,
    pub cook_time_mins: Option<i32>,
    pub difficulty: Option<String>,
    pub cuisine: Option<String>,
    pub meal_type: Option<String>,
    pub source: Option<String>,
    pub ingredients: Option<Vec<CreateRecipeIngredient>>,
    pub steps: Option<Vec<CreateRecipeStep>>,
    pub tags: Option<Vec<String>>,
}

/// One ingredient line of a request.
#[derive(Debug, Clone, PartialEq)]
pub struct CreateRecipeIngredient {
    pub ingredient_id: Option<u128>,
    pub custom_name: Option<String>,
    pub quantity: Option<String>,
    pub unit: Option<String>,
    pub preparation: Option<String>,
    pub optional: Option<bool>,
    pub sort_order: Option<i32>,
}

/// One step of a request.
#[derive(Debug, Clone, PartialEq)]
pub struct CreateRecipeStep {
    pub step_number: Option<i32>,
    pub instruction: String,
    pub timer_mins: Option<i32>,
}

// --------- MEAL PLAN ---------

/// A meal plan row.
#[derive(Debug, Clone, PartialEq)]
pub struct MealPlan {
    pub id: u128,
    pub plan_date: i32,
    pub meal_slot: String,
    pub recipe_id: Option<u128>,
    pub custom_meal: Option<String>,
    pub notes: Option<String>,
    pub created_at: Option<i64>,
}

/// The body of a request that creates a meal plan.
#[derive(Debug, Clone, PartialEq)]
pub struct CreateMealPlan {
    pub plan_date: i32,
    pub meal_slot: String,
    pub recipe_id: Option<u128>,
    pub custom_meal: Option<String>,
    pub notes: Option<String>,
}

/// The body of a request that changes a meal plan.
#[derive(Debug, Clone, PartialEq)]
pub struct UpdateMealPlan {
    pub plan_date: Option<i32>,
    pub meal_slot: Option<String>,
    pub recipe_id: Option<u128>,
    pub custom_meal: Option<String>,
    pub notes: Option<String>,
}

} // verus!
