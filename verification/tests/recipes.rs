use kdb_backend::models::{CreateRecipeIngredient, CreateRecipeStep, Recipe, RecipeDetail, RecipeStep};
use kdb_backend::recipes::{
    delete_one, get_all, get_one, sort_orders, step_numbers, update_one, DetailAction, DetailEvent, DetailLookup,
    DetailQuery,
};
use kdb_backend::reply::{Body, DbError, Reply};

fn failure(message: &str) -> DbError {
    DbError { message: message.to_string(), constraint: None }
}

fn stew(id: u128) -> Recipe {
    Recipe {
        id,
        name: "stew".to_string(),
        description: Some("slow".to_string()),
        servings: 6,
        prep_time_mins: None,
        cook_time_mins: Some(120),
        total_time_mins: Some(120),
        difficulty: None,
        cuisine: None,
        meal_type: None,
        source: None,
        created_at: Some(1),
        updated_at: Some(2),
    }
}

#[test]
fn deleting_counts_rows() {
    assert_eq!(delete_one(Ok(0)), Reply { status: 404, body: Body::Error("Recipe not found".to_string()) });
    assert_eq!(delete_one(Ok(1)), Reply { status: 204, body: Body::Empty });
    assert_eq!(delete_one(Ok(3)), Reply { status: 204, body: Body::Empty });
    assert_eq!(delete_one(Err(failure("boom"))), Reply { status: 500, body: Body::Error("boom".to_string()) });
}

#[test]
fn recipe_update_and_listing() {
    assert_eq!(update_one(Ok(Some(stew(1)))), Reply { status: 200, body: Body::Json(stew(1)) });
    assert_eq!(update_one(Ok(None)), Reply { status: 404, body: Body::Error("Recipe not found".to_string()) });
    assert_eq!(get_all(Ok(vec![stew(1), stew(2)])), Reply { status: 200, body: Body::Json(vec![stew(1), stew(2)]) });
}

#[test]
fn numbers_of_numbered_steps() {
    let steps = vec![
        CreateRecipeStep { step_number: Some(3), instruction: "a".to_string(), timer_mins: None },
        CreateRecipeStep { step_number: None, instruction: "b".to_string(), timer_mins: Some(5) },
        CreateRecipeStep { step_number: Some(1), instruction: "c".to_string(), timer_mins: None },
    ];
    assert_eq!(step_numbers(&steps), vec![3, 1]);
    assert_eq!(step_numbers(&vec![]), Vec::<i32>::new());
}

#[test]
fn orders_of_ordered_lines() {
    let line = |o: Option<i32>| CreateRecipeIngredient {
        ingredient_id: None,
        custom_name: None,
        quantity: None,
        unit: None,
        preparation: None,
        optional: None,
        sort_order: o,
    };
    assert_eq!(sort_orders(&vec![line(None), line(Some(2)), line(Some(2))]), vec![2, 2]);
}

#[test]
fn detail_reads_all_parts() {
    let (state, action) = get_one(9);
    assert_eq!(action, DetailAction::Run(DetailQuery::Recipe(9)));
    let (state, action) = state.step(DetailEvent::RecipeRow(Ok(Some(stew(9)))));
    assert_eq!(action, DetailAction::Run(DetailQuery::Ingredients(9)));
    let (state, action) = state.step(DetailEvent::IngredientRows(Ok(vec![])));
    assert_eq!(action, DetailAction::Run(DetailQuery::Steps(9)));
    let step = RecipeStep { id: 1, recipe_id: 9, step_number: 1, instruction: "simmer".to_string(), timer_mins: None };
    let (state, action) = state.step(DetailEvent::StepRows(Ok(vec![step.clone()])));
    assert_eq!(action, DetailAction::Run(DetailQuery::Tags(9)));
    let (state, action) = state.step(DetailEvent::TagRows(Ok(vec!["winter".to_string()])));
    assert_eq!(state, DetailLookup::Finished);
    assert_eq!(
        action,
        DetailAction::Respond(Reply {
            status: 200,
            body: Body::Json(RecipeDetail {
                recipe: stew(9),
                ingredients: vec![],
                steps: vec![step],
                tags: vec!["winter".to_string()],
            }),
        })
    );
}

#[test]
fn detail_of_missing_recipe_is_not_found() {
    let (state, _) = get_one(9);
    let (state, action) = state.step(DetailEvent::RecipeRow(Ok(None)));
    assert_eq!(state, DetailLookup::Finished);
    assert_eq!(action, DetailAction::Respond(Reply { status: 404, body: Body::Error("Recipe not found".to_string()) }));
}

#[test]
fn detail_stops_at_first_failure() {
    let (state, _) = get_one(9);
    let (state, _) = state.step(DetailEvent::RecipeRow(Ok(Some(stew(9)))));
    let (state, action) = state.step(DetailEvent::IngredientRows(Err(failure("timeout"))));
    assert_eq!(state, DetailLookup::Finished);
    assert_eq!(action, DetailAction::Respond(Reply { status: 500, body: Body::Error("timeout".to_string()) }));
}
