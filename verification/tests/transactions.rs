use kdb_backend::models::{CreateRecipe, CreateRecipeIngredient, CreateRecipeStep, Recipe};
use kdb_backend::recipes::{create, replace_ingredients, replace_steps, replace_tags, RecipeCreation};
use kdb_backend::reply::{Body, DbError, Reply};
use kdb_backend::tx::{ErrorStyle, IngredientLine, NewRecipe, Statement, Tx, TxAction, TxEvent};

fn failure(message: &str) -> DbError {
    DbError { message: message.to_string(), constraint: None }
}

/// Feeds the outcomes to the transaction, collecting the actions after the first.
fn drive(mut tx: Tx, events: Vec<TxEvent>) -> Vec<TxAction> {
    let mut actions = Vec::new();
    for event in events {
        if tx.is_finished() {
            break;
        }
        let (next, action) = tx.step(event);
        tx = next;
        actions.push(action);
    }
    actions
}

fn drive_creation(mut c: RecipeCreation, events: Vec<TxEvent>) -> Vec<TxAction> {
    let mut actions = Vec::new();
    for event in events {
        if c.is_finished() {
            break;
        }
        let (next, action) = c.step(event);
        c = next;
        actions.push(action);
    }
    actions
}

fn tag(recipe_id: u128, t: &str) -> TxAction {
    TxAction::Execute(Statement::InsertTag { recipe_id, tag: t.to_string() })
}

fn no_content() -> TxAction {
    TxAction::Respond(Reply { status: 204, body: Body::Empty })
}

#[test]
fn tags_replaced_in_one_transaction() {
    let (tx, first) = replace_tags(5, vec!["vegan".to_string(), "quick".to_string()]);
    assert_eq!(first, TxAction::Begin);
    let actions = drive(tx, vec![TxEvent::Done; 5]);
    assert_eq!(
        actions,
        vec![
            TxAction::Execute(Statement::DeleteTags { recipe_id: 5 }),
            tag(5, "vegan"),
            tag(5, "quick"),
            TxAction::Commit,
            no_content(),
        ]
    );
}

#[test]
fn failed_tag_rolls_back() {
    let (tx, _) = replace_tags(5, vec!["vegan".to_string(), "quick".to_string()]);
    let actions = drive(
        tx,
        vec![TxEvent::Done, TxEvent::Done, TxEvent::Failed(failure("duplicate tag")), TxEvent::Done, TxEvent::Done],
    );
    assert_eq!(
        actions,
        vec![
            TxAction::Execute(Statement::DeleteTags { recipe_id: 5 }),
            tag(5, "vegan"),
            TxAction::Rollback,
            TxAction::Respond(Reply { status: 500, body: Body::Error("duplicate tag".to_string()) }),
        ]
    );
    assert!(!actions.contains(&TxAction::Commit));
}

#[test]
fn rollback_failure_does_not_change_the_answer() {
    let (tx, _) = replace_tags(5, vec![]);
    let actions = drive(tx, vec![TxEvent::Done, TxEvent::Failed(failure("first")), TxEvent::Failed(failure("second"))]);
    assert_eq!(
        actions.last(),
        Some(&TxAction::Respond(Reply { status: 500, body: Body::Error("first".to_string()) }))
    );
}

#[test]
fn failed_begin_runs_nothing() {
    let (tx, _) = replace_tags(5, vec!["vegan".to_string()]);
    let actions = drive(tx, vec![TxEvent::Failed(failure("no connection")), TxEvent::Done]);
    assert_eq!(
        actions,
        vec![TxAction::Respond(Reply { status: 500, body: Body::Error("no connection".to_string()) })]
    );
}

#[test]
fn failed_commit_of_tags_is_reported() {
    let (tx, _) = replace_tags(5, vec![]);
    let actions = drive(tx, vec![TxEvent::Done, TxEvent::Done, TxEvent::Failed(failure("commit lost"))]);
    assert_eq!(
        actions,
        vec![
            TxAction::Execute(Statement::DeleteTags { recipe_id: 5 }),
            TxAction::Commit,
            TxAction::Respond(Reply { status: 500, body: Body::Error("commit lost".to_string()) }),
        ]
    );
}

fn step(n: Option<i32>, text: &str) -> CreateRecipeStep {
    CreateRecipeStep { step_number: n, instruction: text.to_string(), timer_mins: None }
}

#[test]
fn steps_keep_only_the_numbers_given() {
    let (tx, _) = replace_steps(8, vec![step(Some(2), "boil"), step(None, "stir"), step(Some(1), "chop")]);
    assert_eq!(tx.pending[0], Statement::DeleteStepsExcept { recipe_id: 8, keep: vec![2, 1] });
    assert_eq!(tx.pending.len(), 4);
    assert_eq!(tx.pending[2], Statement::UpsertStep { recipe_id: 8, step: step(None, "stir") });
    assert_eq!(tx.style, ErrorStyle::Json);
}

#[test]
fn failed_commit_of_steps_is_ignored() {
    let (tx, _) = replace_steps(8, vec![step(Some(1), "chop")]);
    let actions = drive(tx, vec![TxEvent::Done, TxEvent::Done, TxEvent::Done, TxEvent::Failed(failure("lost"))]);
    assert_eq!(actions.len(), 4);
    assert_eq!(actions[2], TxAction::Commit);
    assert_eq!(actions[3], no_content());
}

#[test]
fn ingredient_lines_default_to_required() {
    let line = CreateRecipeIngredient {
        ingredient_id: Some(3),
        custom_name: None,
        quantity: Some("1.5".to_string()),
        unit: Some("cup".to_string()),
        preparation: None,
        optional: None,
        sort_order: Some(4),
    };
    let mut extra = line.clone();
    extra.optional = Some(true);
    extra.sort_order = None;
    let (tx, _) = replace_ingredients(8, vec![line, extra]);
    assert_eq!(tx.pending[0], Statement::DeleteIngredientsExcept { recipe_id: 8, keep: vec![4] });
    assert_eq!(
        tx.pending[1],
        Statement::UpsertIngredient {
            recipe_id: 8,
            line: IngredientLine {
                ingredient_id: Some(3),
                custom_name: None,
                quantity: Some("1.5".to_string()),
                unit: Some("cup".to_string()),
                preparation: None,
                optional: false,
                sort_order: Some(4),
            },
        }
    );
    match &tx.pending[2] {
        Statement::UpsertIngredient { line, .. } => assert!(line.optional),
        other => panic!("unexpected {:?}", other),
    }
    assert!(!tx.commit_checked);
}

fn body() -> CreateRecipe {
    CreateRecipe {
        name: "soup".to_string(),
        description: None,
        servings: None,
        prep_time_mins: Some(10),
        cook_time_mins: None,
        difficulty: None,
        cuisine: None,
        meal_type: None,
        source: None,
        ingredients: Some(vec![CreateRecipeIngredient {
            ingredient_id: None,
            custom_name: Some("water".to_string()),
            quantity: None,
            unit: None,
            preparation: None,
            optional: None,
            sort_order: Some(1),
        }]),
        steps: Some(vec![step(Some(1), "boil")]),
        tags: None,
    }
}

fn soup_row(id: u128) -> Recipe {
    Recipe {
        id,
        name: "soup".to_string(),
        description: None,
        servings: 4,
        prep_time_mins: Some(10),
        cook_time_mins: None,
        total_time_mins: None,
        difficulty: None,
        cuisine: None,
        meal_type: None,
        source: None,
        created_at: None,
        updated_at: None,
    }
}

#[test]
fn recipe_created_with_its_parts() {
    let (c, first) = create(body());
    assert_eq!(first, TxAction::Begin);
    let actions = drive_creation(
        c,
        vec![TxEvent::Done, TxEvent::Inserted(soup_row(77)), TxEvent::Done, TxEvent::Done, TxEvent::Done],
    );
    assert_eq!(
        actions,
        vec![
            TxAction::Execute(Statement::InsertRecipe(NewRecipe {
                name: "soup".to_string(),
                description: None,
                servings: 4,
                prep_time_mins: Some(10),
                cook_time_mins: None,
                difficulty: None,
                cuisine: None,
                meal_type: None,
                source: None,
            })),
            TxAction::Execute(Statement::InsertIngredient {
                recipe_id: 77,
                line: IngredientLine {
                    ingredient_id: None,
                    custom_name: Some("water".to_string()),
                    quantity: None,
                    unit: None,
                    preparation: None,
                    optional: false,
                    sort_order: Some(1),
                },
            }),
            TxAction::Execute(Statement::InsertStep { recipe_id: 77, step: step(Some(1), "boil") }),
            TxAction::Commit,
            TxAction::Respond(Reply { status: 201, body: Body::Empty }),
        ]
    );
}

#[test]
fn recipe_servings_given_are_kept() {
    let mut b = body();
    b.servings = Some(2);
    let (c, _) = create(b);
    match &c.tx.pending[0] {
        Statement::InsertRecipe(r) => assert_eq!(r.servings, 2),
        other => panic!("unexpected {:?}", other),
    }
}

#[test]
fn recipe_failure_is_plain_text() {
    let (c, _) = create(body());
    let actions = drive_creation(
        c,
        vec![
            TxEvent::Done,
            TxEvent::Inserted(soup_row(77)),
            TxEvent::Failed(failure("bad ingredient")),
            TxEvent::Done,
        ],
    );
    assert_eq!(actions.len(), 4);
    assert_eq!(actions[2], TxAction::Rollback);
    assert_eq!(actions[3], TxAction::Respond(Reply { status: 500, body: Body::Text("bad ingredient".to_string()) }));
}

#[test]
fn recipe_row_failure_rolls_back() {
    let (c, _) = create(body());
    let actions =
        drive_creation(c, vec![TxEvent::Done, TxEvent::Failed(failure("name too long")), TxEvent::Done]);
    assert_eq!(actions.len(), 3);
    assert_eq!(actions[1], TxAction::Rollback);
    assert_eq!(actions[2], TxAction::Respond(Reply { status: 500, body: Body::Text("name too long".to_string()) }));
}

#[test]
fn recipe_without_parts_commits_after_its_row() {
    let mut b = body();
    b.ingredients = None;
    b.steps = Some(vec![]);
    let (c, _) = create(b);
    let actions = drive_creation(c, vec![TxEvent::Done, TxEvent::Inserted(soup_row(1)), TxEvent::Done]);
    assert_eq!(actions.len(), 3);
    assert_eq!(actions[1], TxAction::Commit);
    assert_eq!(actions[2], TxAction::Respond(Reply { status: 201, body: Body::Empty }));
}
