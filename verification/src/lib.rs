//! Request handling for a kitchen database service: the decisions that the
//! HTTP handlers make between their database round trips, with contracts.

pub mod day;
pub mod reply;
pub mod models;
pub mod tx;
pub mod recipes;
pub mod health;
pub mod ingredients;
pub mod meal_plan;
pub mod kitchen;
