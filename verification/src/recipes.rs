//! Recipes: their replies, the transactions that create them and replace
//! their parts, and the lookup of a recipe with its parts.

use vstd::prelude::*;
use crate::models::{CreateRecipe, CreateRecipeIngredient, CreateRecipeStep, Recipe, RecipeDetail,
    RecipeIngredient, RecipeStep};
use crate::reply::{Body, DbError, Reply, STATUS_CREATED, STATUS_INTERNAL_SERVER_ERROR, STATUS_NOT_FOUND,
    STATUS_NO_CONTENT, STATUS_OK, found, found_reply, is_error_reply, listed, listed_reply, not_found,
    server_error};
use crate::tx::{ErrorStyle, IngredientLine, NewRecipe, Statement, Tx, TxAction, TxEvent, TxPhase,
    TxView, executions, failure_reply, lemma_all_succeed, lemma_failure_rolls_back, successes, tx_next,
    tx_run};

verus! {

/// The statement that adds a tag to a recipe.
pub open spec fn insert_tag(recipe_id: u128, tag: String) -> Statement {
    Statement::InsertTag { recipe_id, tag }
}

/// The statements that replace a recipe's tags: delete them all, then insert
/// each given tag in order.
pub open spec fn tags_plan(recipe_id: u128, tags: Seq<String>) -> Seq<Statement> {
    seq![Statement::DeleteTags { recipe_id }] + tags.map_values(|t: String| insert_tag(recipe_id, t))
}

/// The transaction that replaces the tags of recipe `id` with `tags`, and
/// its first action. Failures are reported as error objects, a failed commit
/// included; success is `204` with no body.
pub fn replace_tags(id: u128, tags: Vec<String>) -> (r: (Tx, TxAction))
    ensures
        r.0@ == (TxView { pending: tags_plan(id, tags@), style: ErrorStyle::Json,
            commit_checked: true, success_status: STATUS_NO_CONTENT, phase: TxPhase::Beginning }),
        r.0@.pending.len() == tags@.len() + 1,
        r.0@.pending[0] == (Statement::DeleteTags { recipe_id: id }),
        forall|k: int| #![trigger tags@[k]] 0 <= k < tags@.len()
            ==> r.0@.pending[k + 1] == (Statement::InsertTag { recipe_id: id, tag: tags@[k] }),
        r.1 == TxAction::Begin,
{
    proof {
        lemma_tags_plan(id, tags@);
    }
    let ghost given = tags@;
    let mut statements: Vec<Statement> = Vec::new();
    statements.push(Statement::DeleteTags { recipe_id: id });
    for tag in it: tags.into_iter()
        invariant
            it.seq() == given,
            statements@ == seq![Statement::DeleteTags { recipe_id: id }]
                + given.take(it.index()).map_values(|t: String| insert_tag(id, t)),
    {
        assert(given.take(it.index() + 1) =~= given.take(it.index()).push(tag));
        statements.push(Statement::InsertTag { recipe_id: id, tag });
        proof {
            let f = |t: String| insert_tag(id, t);
            assert(given.take(it.index() + 1).map_values(f)
                =~= given.take(it.index()).map_values(f).push(insert_tag(id, tag)));
        }
    }
    assert(given.take(given.len() as int) =~= given);
    Tx::open(statements, ErrorStyle::Json, true, STATUS_NO_CONTENT)
}

/// The step numbers that the steps name, in order; steps without one are
/// passed over.
pub open spec fn numbered(steps: Seq<CreateRecipeStep>) -> Seq<i32>
    decreases steps.len(),
{
    if steps.len() == 0 {
        Seq::empty()
    } else {
        let before = numbered(steps.drop_last());
        match steps.last().step_number {
            Some(n) => before.push(n),
            None => before,
        }
    }
}

/// The sort orders that the lines name, in order; lines without one are
/// passed over.
pub open spec fn ordered(lines: Seq<CreateRecipeIngredient>) -> Seq<i32>
    decreases lines.len(),
{
    if lines.len() == 0 {
        Seq::empty()
    } else {
        let before = ordered(lines.drop_last());
        match lines.last().sort_order {
            Some(n) => before.push(n),
            None => before,
        }
    }
}

/// The step numbers that the steps name; see `numbered`.
pub fn step_numbers(steps: &Vec<CreateRecipeStep>) -> (numbers: Vec<i32>)
    ensures
        numbers@ == numbered(steps@),
{
    let mut numbers: Vec<i32> = Vec::new();
    for i in 0..steps.len()
        invariant
            numbers@ == numbered(steps@.take(i as int)),
    {
        assert(steps@.take(i + 1).drop_last() =~= steps@.take(i as int));
        match steps[i].step_number {
            Some(n) => numbers.push(n),
            None => {},
        }
    }
    assert(steps@.take(steps@.len() as int) =~= steps@);
    numbers
}

/// The sort orders that the lines name; see `ordered`.
pub fn sort_orders(lines: &Vec<CreateRecipeIngredient>) -> (orders: Vec<i32>)
    ensures
        orders@ == ordered(lines@),
{
    let mut orders: Vec<i32> = Vec::new();
    for i in 0..lines.len()
        invariant
            orders@ == ordered(lines@.take(i as int)),
    {
        assert(lines@.take(i + 1).drop_last() =~= lines@.take(i as int));
        match lines[i].sort_order {
            Some(n) => orders.push(n),
            None => {},
        }
    }
    assert(lines@.take(lines@.len() as int) =~= lines@);
    orders
}

/// A number is kept by the deletion that replaces a recipe's steps exactly
/// when one of the new steps names it.
pub proof fn lemma_numbered_names(steps: Seq<CreateRecipeStep>, n: i32)
    ensures
        numbered(steps).contains(n)
            <==> exists|i: int| 0 <= i < steps.len() && #[trigger] steps[i].step_number == Some(n),
    decreases steps.len(),
{
    if steps.len() > 0 {
        let before = steps.drop_last();
        lemma_numbered_names(before, n);
        if numbered(steps).contains(n) {
            if numbered(before).contains(n) {
                let i = choose|i: int| 0 <= i < before.len() && #[trigger] before[i].step_number == Some(n);
                assert(steps[i] == before[i]);
            } else {
                assert(steps[steps.len() - 1].step_number == Some(n));
            }
        }
        if exists|i: int| 0 <= i < steps.len() && #[trigger] steps[i].step_number == Some(n) {
            let i = choose|i: int| 0 <= i < steps.len() && #[trigger] steps[i].step_number == Some(n);
            if i < steps.len() - 1 {
                assert(before[i] == steps[i]);
                let k = choose|k: int| 0 <= k < numbered(before).len() && numbered(before)[k] == n;
                assert(numbered(steps)[k] == n);
            } else {
                assert(numbered(steps) == numbered(before).push(n));
                assert(numbered(steps)[numbered(before).len() as int] == n);
            }
        }
    }
}

/// A sort order is kept by the deletion that replaces a recipe's ingredient
/// lines exactly when one of the new lines names it.
pub proof fn lemma_ordered_names(lines: Seq<CreateRecipeIngredient>, n: i32)
    ensures
        ordered(lines).contains(n)
            <==> exists|i: int| 0 <= i < lines.len() && #[trigger] lines[i].sort_order == Some(n),
    decreases lines.len(),
{
    if lines.len() > 0 {
        let before = lines.drop_last();
        lemma_ordered_names(before, n);
        if ordered(lines).contains(n) {
            if ordered(before).contains(n) {
                let i = choose|i: int| 0 <= i < before.len() && #[trigger] before[i].sort_order == Some(n);
                assert(lines[i] == before[i]);
            } else {
                assert(lines[lines.len() - 1].sort_order == Some(n));
            }
        }
        if exists|i: int| 0 <= i < lines.len() && #[trigger] lines[i].sort_order == Some(n) {
            let i = choose|i: int| 0 <= i < lines.len() && #[trigger] lines[i].sort_order == Some(n);
            if i < lines.len() - 1 {
                assert(before[i] == lines[i]);
                let k = choose|k: int| 0 <= k < ordered(before).len() && ordered(before)[k] == n;
                assert(ordered(lines)[k] == n);
            } else {
                assert(ordered(lines) == ordered(before).push(n));
                assert(ordered(lines)[ordered(before).len() as int] == n);
            }
        }
    }
}

/// The columns written for an ingredient line of a request: as given, with
/// `optional` false when it is not given.
pub open spec fn line_of(ingredient: CreateRecipeIngredient) -> IngredientLine {
    IngredientLine {
        ingredient_id: ingredient.ingredient_id,
        custom_name: ingredient.custom_name,
        quantity: ingredient.quantity,
        unit: ingredient.unit,
        preparation: ingredient.preparation,
        optional: match ingredient.optional {
            Some(b) => b,
            None => false,
        },
        sort_order: ingredient.sort_order,
    }
}

/// The columns written for an ingredient line; see `line_of`.
pub fn ingredient_line(ingredient: CreateRecipeIngredient) -> (line: IngredientLine)
    ensures
        line == line_of(ingredient),
{
    let optional = match ingredient.optional {
        Some(b) => b,
        None => false,
    };
    IngredientLine {
        ingredient_id: ingredient.ingredient_id,
        custom_name: ingredient.custom_name,
        quantity: ingredient.quantity,
        unit: ingredient.unit,
        preparation: ingredient.preparation,
        optional,
        sort_order: ingredient.sort_order,
    }
}

/// The statement that writes a step of a recipe, replacing the one with its
/// number.
pub open spec fn upsert_step(recipe_id: u128, step: CreateRecipeStep) -> Statement {
    Statement::UpsertStep { recipe_id, step }
}

/// The statement that writes an ingredient line of a recipe, replacing the
/// one with its sort order.
pub open spec fn upsert_line(recipe_id: u128, ingredient: CreateRecipeIngredient) -> Statement {
    Statement::UpsertIngredient { recipe_id, line: line_of(ingredient) }
}

/// The transaction that replaces the steps of recipe `id` with `steps`, and
/// its first action: it deletes the recipe's steps whose number none of the
/// new steps names, then writes each new step in order over the one with its
/// number. Failures of the statements are reported as error objects; the
/// commit's outcome is not checked, and success is `204` with no body.
pub fn replace_steps(id: u128, steps: Vec<CreateRecipeStep>) -> (r: (Tx, TxAction))
    ensures
        r.0@.pending.len() == steps@.len() + 1,
        r.0@.pending[0] matches Statement::DeleteStepsExcept { recipe_id, keep }
            && recipe_id == id && keep@ == numbered(steps@),
        r.0@.pending.drop_first() == steps@.map_values(|s: CreateRecipeStep| upsert_step(id, s)),
        forall|k: int| #![trigger steps@[k]] 0 <= k < steps@.len()
            ==> r.0@.pending[k + 1] == (Statement::UpsertStep { recipe_id: id, step: steps@[k] }),
        r.0@.style == ErrorStyle::Json,
        !r.0@.commit_checked,
        r.0@.success_status == STATUS_NO_CONTENT,
        r.0@.phase == TxPhase::Beginning,
        r.1 == TxAction::Begin,
{
    let ghost given = steps@;
    let keep = step_numbers(&steps);
    let ghost kept = keep@;
    let mut statements: Vec<Statement> = Vec::new();
    statements.push(Statement::DeleteStepsExcept { recipe_id: id, keep });
    for step in it: steps.into_iter()
        invariant
            it.seq() == given,
            statements@.len() == it.index() + 1,
            statements@[0] matches Statement::DeleteStepsExcept { recipe_id, keep }
                && recipe_id == id && keep@ == kept,
            statements@.drop_first() == given.take(it.index()).map_values(|s: CreateRecipeStep| upsert_step(id, s)),
    {
        let ghost before = statements@;
        assert(given.take(it.index() + 1) =~= given.take(it.index()).push(step));
        statements.push(Statement::UpsertStep { recipe_id: id, step });
        proof {
            let f = |s: CreateRecipeStep| upsert_step(id, s);
            assert(given.take(it.index() + 1).map_values(f)
                =~= given.take(it.index()).map_values(f).push(upsert_step(id, step)));
            assert(statements@.drop_first() =~= before.drop_first().push(upsert_step(id, step)));
        }
    }
    assert(given.take(given.len() as int) =~= given);
    assert forall|k: int| #![trigger given[k]] 0 <= k < given.len()
        implies statements@[k + 1] == (Statement::UpsertStep { recipe_id: id, step: given[k] }) by {
        assert(statements@[k + 1] == statements@.drop_first()[k]);
        lemma_upsert_step(id, given[k]);
    }
    Tx::open(statements, ErrorStyle::Json, false, STATUS_NO_CONTENT)
}

/// The transaction that replaces the ingredient lines of recipe `id` with
/// `ingredients`, and its first action: it deletes the recipe's lines whose
/// sort order none of the new lines names, then writes each new line in order
/// over the one with its sort order. Failures of the statements are reported
/// as error objects; the commit's outcome is not checked, and success is
/// `204` with no body.
pub fn replace_ingredients(id: u128, ingredients: Vec<CreateRecipeIngredient>) -> (r: (Tx, TxAction))
    ensures
        r.0@.pending.len() == ingredients@.len() + 1,
        r.0@.pending[0] matches Statement::DeleteIngredientsExcept { recipe_id, keep }
            && recipe_id == id && keep@ == ordered(ingredients@),
        r.0@.pending.drop_first()
            == ingredients@.map_values(|i: CreateRecipeIngredient| upsert_line(id, i)),
        forall|k: int| #![trigger ingredients@[k]] 0 <= k < ingredients@.len()
            ==> (r.0@.pending[k + 1] matches Statement::UpsertIngredient { recipe_id, line } && {
                let i = ingredients@[k];
                &&& recipe_id == id
                &&& line.ingredient_id == i.ingredient_id
                &&& line.custom_name == i.custom_name
                &&& line.quantity == i.quantity
                &&& line.unit == i.unit
                &&& line.preparation == i.preparation
                &&& line.sort_order == i.sort_order
                &&& line.optional == (i.optional == Some(true))
            }),
        r.0@.style == ErrorStyle::Json,
        !r.0@.commit_checked,
        r.0@.success_status == STATUS_NO_CONTENT,
        r.0@.phase == TxPhase::Beginning,
        r.1 == TxAction::Begin,
{
    let ghost given = ingredients@;
    let keep = sort_orders(&ingredients);
    let ghost kept = keep@;
    let mut statements: Vec<Statement> = Vec::new();
    statements.push(Statement::DeleteIngredientsExcept { recipe_id: id, keep });
    for ingredient in it: ingredients.into_iter()
        invariant
            it.seq() == given,
            statements@.len() == it.index() + 1,
            statements@[0] matches Statement::DeleteIngredientsExcept { recipe_id, keep }
                && recipe_id == id && keep@ == kept,
            statements@.drop_first()
                == given.take(it.index()).map_values(|i: CreateRecipeIngredient| upsert_line(id, i)),
    {
        let ghost before = statements@;
        assert(given.take(it.index() + 1) =~= given.take(it.index()).push(ingredient));
        let line = ingredient_line(ingredient);
        statements.push(Statement::UpsertIngredient { recipe_id: id, line });
        proof {
            let f = |i: CreateRecipeIngredient| upsert_line(id, i);
            assert(given.take(it.index() + 1).map_values(f)
                =~= given.take(it.index()).map_values(f).push(upsert_line(id, ingredient)));
            assert(statements@.drop_first() =~= before.drop_first().push(upsert_line(id, ingredient)));
        }
    }
    assert(given.take(given.len() as int) =~= given);
    assert forall|k: int| #![trigger given[k]] 0 <= k < given.len()
        implies (statements@[k + 1] matches Statement::UpsertIngredient { recipe_id, line } && {
            let i = given[k];
            &&& recipe_id == id
            &&& line.ingredient_id == i.ingredient_id
            &&& line.custom_name == i.custom_name
            &&& line.quantity == i.quantity
            &&& line.unit == i.unit
            &&& line.preparation == i.preparation
            &&& line.sort_order == i.sort_order
            &&& line.optional == (i.optional == Some(true))
        }) by {
        assert(statements@[k + 1] == statements@.drop_first()[k]);
        lemma_upsert_line(id, given[k]);
    }
    Tx::open(statements, ErrorStyle::Json, false, STATUS_NO_CONTENT)
}

/// The columns of the recipe row that a request creates: as given, with
/// four servings when the request names none.
pub open spec fn new_recipe(body: CreateRecipe) -> NewRecipe {
    NewRecipe {
        name: body.name,
        description: body.description,
        servings: match body.servings {
            Some(n) => n,
            None => 4,
        },
        prep_time_mins: body.prep_time_mins,
        cook_time_mins: body.cook_time_mins,
        difficulty: body.difficulty,
        cuisine: body.cuisine,
        meal_type: body.meal_type,
        source: body.source,
    }
}

/// The items of a list that a request may leave out.
pub open spec fn given_items<T>(list: Option<Vec<T>>) -> Seq<T> {
    match list {
        Some(v) => v@,
        None => Seq::empty(),
    }
}

/// The statement that inserts an ingredient line of a new recipe.
pub open spec fn insert_line(recipe_id: u128, ingredient: CreateRecipeIngredient) -> Statement {
    Statement::InsertIngredient { recipe_id, line: line_of(ingredient) }
}

/// The statement that inserts a step of a new recipe.
pub open spec fn insert_step(recipe_id: u128, step: CreateRecipeStep) -> Statement {
    Statement::InsertStep { recipe_id, step }
}

/// The statements that insert the parts of the recipe `recipe_id`: its
/// ingredient lines, then its steps, then its tags, each in the order given.
pub open spec fn parts_plan(
    recipe_id: u128,
    ingredients: Seq<CreateRecipeIngredient>,
    steps: Seq<CreateRecipeStep>,
    tags: Seq<String>,
) -> Seq<Statement> {
    ingredients.map_values(|i: CreateRecipeIngredient| insert_line(recipe_id, i))
        + steps.map_values(|s: CreateRecipeStep| insert_step(recipe_id, s))
        + tags.map_values(|t: String| insert_tag(recipe_id, t))
}

/// The statements that insert the parts of a new recipe; see `parts_plan`.
pub fn recipe_parts(
    recipe_id: u128,
    ingredients: Vec<CreateRecipeIngredient>,
    steps: Vec<CreateRecipeStep>,
    tags: Vec<String>,
) -> (statements: Vec<Statement>)
    ensures
        statements@ == parts_plan(recipe_id, ingredients@, steps@, tags@),
        statements@.len() == ingredients@.len() + steps@.len() + tags@.len(),
        forall|k: int| #![trigger steps@[k]] 0 <= k < steps@.len()
            ==> statements@[ingredients@.len() + k] == (Statement::InsertStep { recipe_id, step: steps@[k] }),
        forall|k: int| #![trigger tags@[k]] 0 <= k < tags@.len()
            ==> statements@[ingredients@.len() + steps@.len() + k]
                == (Statement::InsertTag { recipe_id, tag: tags@[k] }),
{
    proof {
        lemma_parts_plan(recipe_id, ingredients@, steps@, tags@);
    }
    let ghost lines = ingredients@;
    let ghost numbered_steps = steps@;
    let ghost labels = tags@;
    let ghost fi = |i: CreateRecipeIngredient| insert_line(recipe_id, i);
    let ghost fs = |s: CreateRecipeStep| insert_step(recipe_id, s);
    let ghost ft = |t: String| insert_tag(recipe_id, t);
    let mut statements: Vec<Statement> = Vec::new();
    for ingredient in it: ingredients.into_iter()
        invariant
            it.seq() == lines,
            fi == (|i: CreateRecipeIngredient| insert_line(recipe_id, i)),
            statements@ == lines.take(it.index()).map_values(fi),
    {
        assert(lines.take(it.index() + 1) =~= lines.take(it.index()).push(ingredient));
        let line = ingredient_line(ingredient);
        statements.push(Statement::InsertIngredient { recipe_id, line });
        assert(lines.take(it.index() + 1).map_values(fi)
            =~= lines.take(it.index()).map_values(fi).push(insert_line(recipe_id, ingredient)));
    }
    assert(lines.take(lines.len() as int) =~= lines);
    let ghost after_lines = statements@;
    for step in it: steps.into_iter()
        invariant
            it.seq() == numbered_steps,
            fs == (|s: CreateRecipeStep| insert_step(recipe_id, s)),
            statements@ == after_lines + numbered_steps.take(it.index()).map_values(fs),
    {
        assert(numbered_steps.take(it.index() + 1) =~= numbered_steps.take(it.index()).push(step));
        statements.push(Statement::InsertStep { recipe_id, step });
        assert(numbered_steps.take(it.index() + 1).map_values(fs)
            =~= numbered_steps.take(it.index()).map_values(fs).push(insert_step(recipe_id, step)));
    }
    assert(numbered_steps.take(numbered_steps.len() as int) =~= numbered_steps);
    let ghost after_steps = statements@;
    for tag in it: tags.into_iter()
        invariant
            it.seq() == labels,
            ft == (|t: String| insert_tag(recipe_id, t)),
            statements@ == after_steps + labels.take(it.index()).map_values(ft),
    {
        assert(labels.take(it.index() + 1) =~= labels.take(it.index()).push(tag));
        statements.push(Statement::InsertTag { recipe_id, tag });
        assert(labels.take(it.index() + 1).map_values(ft)
            =~= labels.take(it.index()).map_values(ft).push(insert_tag(recipe_id, tag)));
    }
    assert(labels.take(labels.len() as int) =~= labels);
    assert(statements@ =~= parts_plan(recipe_id, lines, numbered_steps, labels));
    statements
}

/// A recipe being created in one transaction: the transaction, and the
/// parts still to insert once the recipe row, and with it its id, is back.
pub struct RecipeCreation {
    pub tx: Tx,
    pub ingredients: Vec<CreateRecipeIngredient>,
    pub steps: Vec<CreateRecipeStep>,
    pub tags: Vec<String>,
    pub awaiting_recipe: bool,
}

/// The model of a recipe being created.
pub struct RecipeCreationView {
    pub tx: TxView,
    pub ingredients: Seq<CreateRecipeIngredient>,
    pub steps: Seq<CreateRecipeStep>,
    pub tags: Seq<String>,
    pub awaiting_recipe: bool,
}

impl View for RecipeCreation {
    type V = RecipeCreationView;

    open spec fn view(&self) -> RecipeCreationView {
        RecipeCreationView {
            tx: self.tx@,
            ingredients: self.ingredients@,
            steps: self.steps@,
            tags: self.tags@,
            awaiting_recipe: self.awaiting_recipe,
        }
    }
}

/// Whether the recipe row was asked for and its outcome is the next event.
pub open spec fn inserting_recipe(c: RecipeCreationView) -> bool {
    c.awaiting_recipe && c.tx.phase is Executing
}

/// The next state and action of a recipe being created. Once the recipe row
/// is back, the statements that insert the parts, with the row's id, join
/// the transaction; otherwise the transaction goes on as `tx_next` says.
pub open spec fn creation_next(c: RecipeCreationView, event: TxEvent) -> (RecipeCreationView, TxAction) {
    if inserting_recipe(c) && event is Inserted {
        let parts = parts_plan(event->Inserted_0.id, c.ingredients, c.steps, c.tags);
        let (t, action) = tx_next(TxView { pending: c.tx.pending + parts, ..c.tx }, event);
        (RecipeCreationView { tx: t, ingredients: Seq::empty(), steps: Seq::empty(), tags: Seq::empty(),
            awaiting_recipe: false }, action)
    } else {
        let (t, action) = tx_next(c.tx, event);
        (RecipeCreationView { tx: t, awaiting_recipe: c.awaiting_recipe && !inserting_recipe(c), ..c },
         action)
    }
}

/// A creation of the recipe that `body` describes, before its first action
/// has an outcome.
pub open spec fn started_creation(body: CreateRecipe) -> RecipeCreationView {
    RecipeCreationView {
        tx: TxView { pending: seq![Statement::InsertRecipe(new_recipe(body))], style: ErrorStyle::Text,
            commit_checked: true, success_status: STATUS_CREATED, phase: TxPhase::Beginning },
        ingredients: given_items(body.ingredients),
        steps: given_items(body.steps),
        tags: given_items(body.tags),
        awaiting_recipe: true,
    }
}

/// The creation of the recipe that `body` describes, with its parts, and its
/// first action. The transaction first inserts the recipe row (four servings
/// when none is given); failures are reported as plain text, a failed commit
/// included; success is `201` with no body.
pub fn create(body: CreateRecipe) -> (r: (RecipeCreation, TxAction))
    ensures
        r.0@ == started_creation(body),
        r.1 == TxAction::Begin,
{
    let CreateRecipe { name, description, servings, prep_time_mins, cook_time_mins, difficulty, cuisine,
        meal_type, source, ingredients, steps, tags } = body;
    let servings = match servings {
        Some(n) => n,
        None => 4,
    };
    let recipe = NewRecipe { name, description, servings, prep_time_mins, cook_time_mins, difficulty,
        cuisine, meal_type, source };
    let mut statements: Vec<Statement> = Vec::new();
    statements.push(Statement::InsertRecipe(recipe));
    let (tx, action) = Tx::open(statements, ErrorStyle::Text, true, STATUS_CREATED);
    let ingredients = match ingredients {
        Some(v) => v,
        None => Vec::new(),
    };
    let steps = match steps {
        Some(v) => v,
        None => Vec::new(),
    };
    let tags = match tags {
        Some(v) => v,
        None => Vec::new(),
    };
    proof {
        assert(ingredients@ =~= given_items(body.ingredients));
        assert(steps@ =~= given_items(body.steps));
        assert(tags@ =~= given_items(body.tags));
    }
    (RecipeCreation { tx, ingredients, steps, tags, awaiting_recipe: true }, action)
}

impl RecipeCreation {
    /// Whether the reply was given.
    pub fn is_finished(&self) -> (b: bool)
        ensures
            b == (self.tx.phase is Finished),
    {
        self.tx.is_finished()
    }

    /// The next state and action, given the outcome of the last action; see
    /// `creation_next`. The insertion of the recipe row either gives the row
    /// back or fails.
    pub fn step(self, event: TxEvent) -> (r: (RecipeCreation, TxAction))
        requires
            !(self.tx.phase is Finished),
            inserting_recipe(self@) ==> !(event is Done),
        ensures
            (r.0@, r.1) == creation_next(self@, event),
    {
        let RecipeCreation { mut tx, ingredients, steps, tags, awaiting_recipe } = self;
        let inserting = awaiting_recipe && match tx.phase {
            TxPhase::Executing => true,
            _ => false,
        };
        let recipe_id = match &event {
            TxEvent::Inserted(recipe) => Some(recipe.id),
            _ => None,
        };
        if inserting && recipe_id.is_some() {
            let id = recipe_id.unwrap();
            let mut parts = recipe_parts(id, ingredients, steps, tags);
            tx.pending.append(&mut parts);
            let (tx, action) = tx.step(event);
            (RecipeCreation { tx, ingredients: Vec::new(), steps: Vec::new(), tags: Vec::new(),
                awaiting_recipe: false }, action)
        } else {
            let (tx, action) = tx.step(event);
            (RecipeCreation { tx, ingredients, steps, tags, awaiting_recipe: awaiting_recipe && !inserting },
             action)
        }
    }
}

/// The actions that a recipe creation takes on the given outcomes, up to
/// its reply.
pub open spec fn creation_run(c: RecipeCreationView, events: Seq<TxEvent>) -> Seq<TxAction>
    decreases events.len(),
{
    if events.len() == 0 || c.tx.phase is Finished {
        Seq::empty()
    } else {
        let (next, action) = creation_next(c, events[0]);
        seq![action] + creation_run(next, events.drop_first())
    }
}

/// Once the recipe row is no longer awaited, a creation runs as its
/// transaction does.
proof fn lemma_creation_follows_tx(c: RecipeCreationView, events: Seq<TxEvent>)
    requires
        !c.awaiting_recipe,
    ensures
        creation_run(c, events) == tx_run(c.tx, events),
    decreases events.len(),
{
    if events.len() > 0 && !(c.tx.phase is Finished) {
        let (next, action) = creation_next(c, events[0]);
        lemma_creation_follows_tx(next, events.drop_first());
    }
}

/// The first two outcomes of a creation, and the transaction they leave:
/// the recipe row was asked for, and the statements that insert the parts,
/// with the new row's id, are to run.
proof fn lemma_creation_opening(body: CreateRecipe, recipe: Recipe, rest: Seq<TxEvent>)
    ensures ({
        let c = started_creation(body);
        let parts = parts_plan(recipe.id, c.ingredients, c.steps, c.tags);
        let t = TxView { pending: parts, ..with_executing(c.tx) };
        &&& creation_run(c, seq![TxEvent::Done, TxEvent::Inserted(recipe)] + rest)
            == seq![TxAction::Execute(Statement::InsertRecipe(new_recipe(body)))]
                + tx_run(t, seq![TxEvent::Done] + rest)
    }),
{
    let c = started_creation(body);
    let events = seq![TxEvent::Done, TxEvent::Inserted(recipe)] + rest;
    let parts = parts_plan(recipe.id, c.ingredients, c.steps, c.tags);
    let t = TxView { pending: parts, ..with_executing(c.tx) };
    let (c1, a1) = creation_next(c, events[0]);
    assert(c1.tx.pending =~= Seq::<Statement>::empty());
    assert(events.drop_first() =~= seq![TxEvent::Inserted(recipe)] + rest);
    let (c2, a2) = creation_next(c1, TxEvent::Inserted(recipe));
    assert(c1.tx.pending + parts =~= parts);
    assert((seq![TxEvent::Inserted(recipe)] + rest).drop_first() =~= rest);
    lemma_creation_follows_tx(c2, rest);
    assert((seq![TxEvent::Done] + rest).drop_first() =~= rest);
    assert(tx_next(t, TxEvent::Done) == tx_next(t, TxEvent::Inserted(recipe)));
    assert(creation_run(c1, seq![TxEvent::Inserted(recipe)] + rest) =~= seq![a2] + tx_run(c2.tx, rest));
    assert(tx_run(t, seq![TxEvent::Done] + rest) =~= seq![a2] + tx_run(c2.tx, rest));
}

/// `t` as it stands once a statement has run.
pub open spec fn with_executing(t: TxView) -> TxView {
    TxView { phase: TxPhase::Executing, ..t }
}

/// A recipe whose statements all succeed is created with all its parts in
/// one transaction: the recipe row is inserted (four servings when none is
/// given), then its ingredient lines, steps and tags in the order given, each
/// with the new row's id; the transaction commits, and the answer is `201`
/// with no body.
pub proof fn lemma_create_all_succeed(body: CreateRecipe, recipe: Recipe)
    ensures ({
        let c = started_creation(body);
        let parts = parts_plan(recipe.id, c.ingredients, c.steps, c.tags);
        creation_run(c, seq![TxEvent::Done, TxEvent::Inserted(recipe)] + successes(parts.len() + 1))
            == seq![TxAction::Execute(Statement::InsertRecipe(new_recipe(body)))] + executions(parts)
                + seq![TxAction::Commit, TxAction::Respond(Reply::<()> { status: STATUS_CREATED,
                    body: Body::Empty })]
    }),
{
    let c = started_creation(body);
    let parts = parts_plan(recipe.id, c.ingredients, c.steps, c.tags);
    let t = TxView { pending: parts, ..with_executing(c.tx) };
    let rest = successes(parts.len() + 1);
    lemma_creation_opening(body, recipe, rest);
    assert(seq![TxEvent::Done] + rest =~= successes(parts.len() + 2));
    lemma_all_succeed(t);
}

/// When one statement of a creation fails, whether the recipe row or part
/// `k` of it, the transaction asks for a rollback after it and answers `500`
/// with the failure as plain text; nothing runs after the failed statement and
/// nothing is committed.
pub proof fn lemma_create_failure(body: CreateRecipe, recipe: Recipe, k: nat, e: DbError, after: TxEvent)
    requires
        k < parts_plan(recipe.id, given_items(body.ingredients), given_items(body.steps),
            given_items(body.tags)).len(),
    ensures ({
        let c = started_creation(body);
        let parts = parts_plan(recipe.id, c.ingredients, c.steps, c.tags);
        let events = seq![TxEvent::Done, TxEvent::Inserted(recipe)] + successes(k)
            + seq![TxEvent::Failed(e), after];
        &&& creation_run(c, events)
            == seq![TxAction::Execute(Statement::InsertRecipe(new_recipe(body)))]
                + executions(parts.take(k + 1int)) + seq![TxAction::Rollback,
                TxAction::Respond(failure_reply(ErrorStyle::Text, e.message))]
        &&& !creation_run(c, events).contains(TxAction::Commit)
        &&& creation_run(c, seq![TxEvent::Done, TxEvent::Failed(e), after])
            == seq![TxAction::Execute(Statement::InsertRecipe(new_recipe(body))), TxAction::Rollback,
                TxAction::Respond(failure_reply(ErrorStyle::Text, e.message))]
    }),
{
    let c = started_creation(body);
    let parts = parts_plan(recipe.id, c.ingredients, c.steps, c.tags);
    let t = TxView { pending: parts, ..with_executing(c.tx) };
    let rest = successes(k) + seq![TxEvent::Failed(e), after];
    let events = seq![TxEvent::Done, TxEvent::Inserted(recipe)] + rest;
    lemma_creation_opening(body, recipe, rest);
    assert(seq![TxEvent::Done] + rest =~= successes(k + 1) + seq![TxEvent::Failed(e), after]);
    lemma_failure_rolls_back(t, k, e, after);
    assert(events =~= seq![TxEvent::Done, TxEvent::Inserted(recipe)] + successes(k)
        + seq![TxEvent::Failed(e), after]);
    let trace = creation_run(c, events);
    let tail = tx_run(t, seq![TxEvent::Done] + rest);
    assert(trace =~= seq![TxAction::Execute(Statement::InsertRecipe(new_recipe(body)))] + tail);
    assert forall|i: int| 0 <= i < trace.len() implies trace[i] != TxAction::Commit by {
        if i > 0 {
            assert(trace[i] == tail[i - 1]);
            assert(tail.contains(tail[i - 1]));
        }
    }
    // The recipe row itself fails.
    let early = seq![TxEvent::Done, TxEvent::Failed(e), after];
    let (c1, a1) = creation_next(c, early[0]);
    assert(early.drop_first() =~= seq![TxEvent::Failed(e), after]);
    let (c2, a2) = creation_next(c1, TxEvent::Failed(e));
    assert(seq![TxEvent::Failed(e), after].drop_first() =~= seq![after]);
    let (c3, a3) = creation_next(c2, after);
    assert(seq![after].drop_first() =~= Seq::<TxEvent>::empty());
    assert(creation_run(c3, Seq::<TxEvent>::empty()) == Seq::<TxAction>::empty());
    assert(c1.tx.phase is Executing);
    assert(c2.tx.phase is RollingBack);
    assert(creation_run(c2, seq![after]) =~= seq![a3]);
    assert(creation_run(c1, seq![TxEvent::Failed(e), after]) =~= seq![a2, a3]);
    assert(creation_run(c, early) =~= seq![a1, a2, a3]);
}

/// What a recipe's answers say when there is no such recipe.
pub const RECIPE_NOT_FOUND: &'static str = "Recipe not found";

/// The answer to a change of a recipe: the changed row with `200`, `404`
/// when no recipe has the id, `500` with the failure's message.
pub fn update_one(result: Result<Option<Recipe>, DbError>) -> (r: Reply<Recipe>)
    ensures
        found_reply(r, result, RECIPE_NOT_FOUND@),
{
    found(result, RECIPE_NOT_FOUND)
}

/// The answer to a listing of the recipes (by name): the rows with `200`, or
/// `500` with the failure's message.
pub fn get_all(result: Result<Vec<Recipe>, DbError>) -> (r: Reply<Vec<Recipe>>)
    ensures
        listed_reply(r, result),
{
    listed(result)
}

/// The answer to the deletion of a recipe, given the number of rows it
/// removed: `404` when none, `204` with no body otherwise, `500` with the
/// failure's message when it failed.
pub fn delete_one(result: Result<u64, DbError>) -> (r: Reply<()>)
    ensures
        match result {
            Ok(0) => is_error_reply(r, STATUS_NOT_FOUND, RECIPE_NOT_FOUND@),
            Ok(_) => r == Reply::<()> { status: STATUS_NO_CONTENT, body: Body::Empty },
            Err(e) => is_error_reply(r, STATUS_INTERNAL_SERVER_ERROR, e.message@),
        },
{
    match result {
        Ok(rows) => {
            if rows == 0 {
                not_found(RECIPE_NOT_FOUND)
            } else {
                Reply { status: STATUS_NO_CONTENT, body: Body::Empty }
            }
        },
        Err(e) => server_error(e),
    }
}

/// A query of the lookup of a recipe with its parts, for the recipe id.
#[derive(Debug, Clone, Copy, PartialEq)]
pub enum DetailQuery {
    /// The recipe row.
    Recipe(u128),
    /// The recipe's ingredient lines, by sort order.
    Ingredients(u128),
    /// The recipe's steps.
    Steps(u128),
    /// The recipe's tags.
    Tags(u128),
}

/// The outcome of a query of the lookup.
#[derive(Debug, PartialEq)]
pub enum DetailEvent {
    RecipeRow(Result<Option<Recipe>, DbError>),
    IngredientRows(Result<Vec<RecipeIngredient>, DbError>),
    StepRows(Result<Vec<RecipeStep>, DbError>),
    TagRows(Result<Vec<String>, DbError>),
}

/// What the lookup does next.
#[derive(Debug, Clone, PartialEq)]
pub enum DetailAction {
    Run(DetailQuery),
    Respond(Reply<RecipeDetail>),
}

/// Where the lookup of recipe `id` with its parts stands: what it has read,
/// and whose outcome it awaits.
#[derive(Debug, Clone, PartialEq)]
pub enum DetailLookup {
    AwaitRecipe(u128),
    AwaitIngredients(u128, Recipe),
    AwaitSteps(u128, Recipe, Vec<RecipeIngredient>),
    AwaitTags(u128, Recipe, Vec<RecipeIngredient>, Vec<RecipeStep>),
    Finished,
}

/// The outcome that the lookup awaits.
pub open spec fn detail_expects(state: DetailLookup, event: DetailEvent) -> bool {
    match state {
        DetailLookup::AwaitRecipe(_) => event is RecipeRow,
        DetailLookup::AwaitIngredients(_, _) => event is IngredientRows,
        DetailLookup::AwaitSteps(_, _, _) => event is StepRows,
        DetailLookup::AwaitTags(_, _, _, _) => event is TagRows,
        DetailLookup::Finished => false,
    }
}

/// `500` with the failure's message, after which the lookup is over.
pub open spec fn detail_failed(next: DetailLookup, action: DetailAction, e: DbError) -> bool {
    &&& next is Finished
    &&& action matches DetailAction::Respond(reply)
        && is_error_reply(reply, STATUS_INTERNAL_SERVER_ERROR, e.message@)
}

/// A step of the lookup: it reads the recipe, then its ingredient lines, then
/// its steps, then its tags, each by the id asked for, and answers `200` with
/// all four; a missing recipe is answered `404` and a failed query `500` with
/// its message, and no query follows either.
pub open spec fn detail_next(state: DetailLookup, event: DetailEvent, next: DetailLookup, action: DetailAction) -> bool {
    match state {
        DetailLookup::AwaitRecipe(id) => match event {
            DetailEvent::RecipeRow(Ok(Some(recipe))) => next == DetailLookup::AwaitIngredients(id, recipe)
                && action == DetailAction::Run(DetailQuery::Ingredients(id)),
            DetailEvent::RecipeRow(Ok(None)) => {
                &&& next is Finished
                &&& action matches DetailAction::Respond(reply)
                    && is_error_reply(reply, STATUS_NOT_FOUND, RECIPE_NOT_FOUND@)
            },
            DetailEvent::RecipeRow(Err(e)) => detail_failed(next, action, e),
            _ => false,
        },
        DetailLookup::AwaitIngredients(id, recipe) => match event {
            DetailEvent::IngredientRows(Ok(ingredients)) =>
                next == DetailLookup::AwaitSteps(id, recipe, ingredients)
                && action == DetailAction::Run(DetailQuery::Steps(id)),
            DetailEvent::IngredientRows(Err(e)) => detail_failed(next, action, e),
            _ => false,
        },
        DetailLookup::AwaitSteps(id, recipe, ingredients) => match event {
            DetailEvent::StepRows(Ok(steps)) =>
                next == DetailLookup::AwaitTags(id, recipe, ingredients, steps)
                && action == DetailAction::Run(DetailQuery::Tags(id)),
            DetailEvent::StepRows(Err(e)) => detail_failed(next, action, e),
            _ => false,
        },
        DetailLookup::AwaitTags(id, recipe, ingredients, steps) => match event {
            DetailEvent::TagRows(Ok(tags)) => next is Finished
                && action == DetailAction::Respond(Reply { status: STATUS_OK,
                    body: Body::Json(RecipeDetail { recipe, ingredients, steps, tags }) }),
            DetailEvent::TagRows(Err(e)) => detail_failed(next, action, e),
            _ => false,
        },
        DetailLookup::Finished => false,
    }
}

/// The lookup of recipe `id` with its parts, and its first query.
pub fn get_one(id: u128) -> (r: (DetailLookup, DetailAction))
    ensures
        r.0 == DetailLookup::AwaitRecipe(id),
        r.1 == DetailAction::Run(DetailQuery::Recipe(id)),
{
    (DetailLookup::AwaitRecipe(id), DetailAction::Run(DetailQuery::Recipe(id)))
}

impl DetailLookup {
    /// The next state and action, given the outcome that the lookup awaits;
    /// see `detail_next`.
    pub fn step(self, event: DetailEvent) -> (r: (DetailLookup, DetailAction))
        requires
            detail_expects(self, event),
        ensures
            detail_next(self, event, r.0, r.1),
    {
        match self {
            DetailLookup::AwaitRecipe(id) => match event {
                DetailEvent::RecipeRow(Ok(Some(recipe))) =>
                    (DetailLookup::AwaitIngredients(id, recipe), DetailAction::Run(DetailQuery::Ingredients(id))),
                DetailEvent::RecipeRow(Ok(None)) =>
                    (DetailLookup::Finished, DetailAction::Respond(not_found(RECIPE_NOT_FOUND))),
                DetailEvent::RecipeRow(Err(e)) => (DetailLookup::Finished, DetailAction::Respond(server_error(e))),
                _ => (DetailLookup::Finished, DetailAction::Respond(not_found(RECIPE_NOT_FOUND))),
            },
            DetailLookup::AwaitIngredients(id, recipe) => match event {
                DetailEvent::IngredientRows(Ok(ingredients)) =>
                    (DetailLookup::AwaitSteps(id, recipe, ingredients), DetailAction::Run(DetailQuery::Steps(id))),
                DetailEvent::IngredientRows(Err(e)) =>
                    (DetailLookup::Finished, DetailAction::Respond(server_error(e))),
                _ => (DetailLookup::Finished, DetailAction::Respond(not_found(RECIPE_NOT_FOUND))),
            },
            DetailLookup::AwaitSteps(id, recipe, ingredients) => match event {
                DetailEvent::StepRows(Ok(steps)) =>
                    (DetailLookup::AwaitTags(id, recipe, ingredients, steps), DetailAction::Run(DetailQuery::Tags(id))),
                DetailEvent::StepRows(Err(e)) => (DetailLookup::Finished, DetailAction::Respond(server_error(e))),
                _ => (DetailLookup::Finished, DetailAction::Respond(not_found(RECIPE_NOT_FOUND))),
            },
            DetailLookup::AwaitTags(id, recipe, ingredients, steps) => match event {
                DetailEvent::TagRows(Ok(tags)) => (DetailLookup::Finished, DetailAction::Respond(Reply {
                    status: STATUS_OK,
                    body: Body::Json(RecipeDetail { recipe, ingredients, steps, tags }),
                })),
                DetailEvent::TagRows(Err(e)) => (DetailLookup::Finished, DetailAction::Respond(server_error(e))),
                _ => (DetailLookup::Finished, DetailAction::Respond(not_found(RECIPE_NOT_FOUND))),
            },
            DetailLookup::Finished => (DetailLookup::Finished, DetailAction::Respond(not_found(RECIPE_NOT_FOUND))),
        }
    }
}


/// Replacing the tags of recipe `id` deletes all of them first, then
/// inserts each given tag once, in the order given, with the recipe's id.
pub proof fn lemma_tags_plan(id: u128, tags: Seq<String>)
    ensures
        tags_plan(id, tags).len() == tags.len() + 1,
        tags_plan(id, tags)[0] == (Statement::DeleteTags { recipe_id: id }),
        forall|k: int| #![trigger tags[k]] 0 <= k < tags.len()
            ==> tags_plan(id, tags)[k + 1] == (Statement::InsertTag { recipe_id: id, tag: tags[k] }),
{
    assert forall|k: int| #![trigger tags[k]] 0 <= k < tags.len()
        implies tags_plan(id, tags)[k + 1] == (Statement::InsertTag { recipe_id: id, tag: tags[k] }) by {
        let f = |t: String| insert_tag(id, t);
        assert(tags_plan(id, tags)[k + 1] == tags.map_values(f)[k]);
    }
}

/// Each step given to the replacement of a recipe's steps is written as
/// given, number, instruction and timer alike, with the recipe's id.
pub proof fn lemma_upsert_step(id: u128, step: CreateRecipeStep)
    ensures
        upsert_step(id, step) == (Statement::UpsertStep { recipe_id: id, step }),
{
}

/// Each line given to the replacement of a recipe's ingredient lines is
/// written with the recipe's id and the line's columns as given, `optional`
/// being true only where the line says so.
pub proof fn lemma_upsert_line(id: u128, ingredient: CreateRecipeIngredient)
    ensures
        upsert_line(id, ingredient) matches Statement::UpsertIngredient { recipe_id, line } && {
            &&& recipe_id == id
            &&& line.ingredient_id == ingredient.ingredient_id
            &&& line.custom_name == ingredient.custom_name
            &&& line.quantity == ingredient.quantity
            &&& line.unit == ingredient.unit
            &&& line.preparation == ingredient.preparation
            &&& line.sort_order == ingredient.sort_order
            &&& line.optional == (ingredient.optional == Some(true))
        },
{
}

/// The statements that insert the parts of a new recipe: one per ingredient
/// line, step and tag given, in that order and each in the order given, all
/// with the new row's id; lines carry their columns as given (`optional` true
/// only where the line says so), steps and tags are written as given.
pub proof fn lemma_parts_plan(
    id: u128,
    ingredients: Seq<CreateRecipeIngredient>,
    steps: Seq<CreateRecipeStep>,
    tags: Seq<String>,
)
    ensures ({
        let parts = parts_plan(id, ingredients, steps, tags);
        &&& parts.len() == ingredients.len() + steps.len() + tags.len()
        &&& forall|k: int| #![trigger ingredients[k]] 0 <= k < ingredients.len() ==> {
            let i = ingredients[k];
            parts[k] matches Statement::InsertIngredient { recipe_id, line } && {
                &&& recipe_id == id
                &&& line.ingredient_id == i.ingredient_id
                &&& line.custom_name == i.custom_name
                &&& line.quantity == i.quantity
                &&& line.unit == i.unit
                &&& line.preparation == i.preparation
                &&& line.sort_order == i.sort_order
                &&& line.optional == (i.optional == Some(true))
            }
        }
        &&& forall|k: int| #![trigger steps[k]] 0 <= k < steps.len()
            ==> parts[ingredients.len() + k] == (Statement::InsertStep { recipe_id: id, step: steps[k] })
        &&& forall|k: int| #![trigger tags[k]] 0 <= k < tags.len()
            ==> parts[ingredients.len() + steps.len() + k] == (Statement::InsertTag { recipe_id: id, tag: tags[k] })
    }),
{
    let parts = parts_plan(id, ingredients, steps, tags);
    let fi = |i: CreateRecipeIngredient| insert_line(id, i);
    let fs = |s: CreateRecipeStep| insert_step(id, s);
    let ft = |t: String| insert_tag(id, t);
    let a = ingredients.map_values(fi);
    let b = steps.map_values(fs);
    let c = tags.map_values(ft);
    assert(parts == a + b + c);
    assert forall|k: int| #![trigger ingredients[k]] 0 <= k < ingredients.len() implies {
        let i = ingredients[k];
        parts[k] matches Statement::InsertIngredient { recipe_id, line } && {
            &&& recipe_id == id
            &&& line.ingredient_id == i.ingredient_id
            &&& line.custom_name == i.custom_name
            &&& line.quantity == i.quantity
            &&& line.unit == i.unit
            &&& line.preparation == i.preparation
            &&& line.sort_order == i.sort_order
            &&& line.optional == (i.optional == Some(true))
        }
    } by {
        assert(parts[k] == a[k]);
    }
    assert forall|k: int| #![trigger steps[k]] 0 <= k < steps.len()
        implies parts[ingredients.len() + k] == (Statement::InsertStep { recipe_id: id, step: steps[k] }) by {
        assert(parts[ingredients.len() + k] == b[k]);
    }
    assert forall|k: int| #![trigger tags[k]] 0 <= k < tags.len()
        implies parts[ingredients.len() + steps.len() + k] == (Statement::InsertTag { recipe_id: id, tag: tags[k] }) by {
        assert(parts[ingredients.len() + steps.len() + k] == c[k]);
    }
}

/// The recipe row that a request creates has the request's columns, and
/// four servings where it names none.
pub proof fn lemma_new_recipe(body: CreateRecipe)
    ensures
        new_recipe(body).name == body.name,
        new_recipe(body).description == body.description,
        body.servings matches Some(n) ==> new_recipe(body).servings == n,
        body.servings is None ==> new_recipe(body).servings == 4,
        new_recipe(body).prep_time_mins == body.prep_time_mins,
        new_recipe(body).cook_time_mins == body.cook_time_mins,
        new_recipe(body).difficulty == body.difficulty,
        new_recipe(body).cuisine == body.cuisine,
        new_recipe(body).meal_type == body.meal_type,
        new_recipe(body).source == body.source,
{
}

/// A list that a request gives is taken whole; one it leaves out is empty.
pub proof fn lemma_given_items<T>(list: Option<Vec<T>>)
    ensures
        list matches Some(v) ==> given_items(list) == v@,
        list is None ==> given_items(list).len() == 0,
{
}

/// `action` answers with the status and an error body holding `message`.
pub open spec fn answers_error(action: DetailAction, status: u16, message: Seq<char>) -> bool {
    action matches DetailAction::Respond(r) && is_error_reply(r, status, message)
}

/// The lookup of a recipe with its parts: a missing recipe is answered `404`
/// and a failed query `500` with its message, and the lookup is over; the
/// last query, answered, gives `200` with the recipe and the three lists as
/// read; before that, each answered query leads to the next one, for the same
/// recipe id.
pub proof fn lemma_detail_answers(state: DetailLookup, event: DetailEvent, next: DetailLookup, action: DetailAction)
    requires
        detail_next(state, event, next, action),
    ensures
        event matches DetailEvent::RecipeRow(Ok(None)) ==> (next is Finished
            && answers_error(action, STATUS_NOT_FOUND, RECIPE_NOT_FOUND@)),
        event matches DetailEvent::RecipeRow(Err(e)) ==> (next is Finished
            && answers_error(action, STATUS_INTERNAL_SERVER_ERROR, e.message@)),
        event matches DetailEvent::IngredientRows(Err(e)) ==> (next is Finished
            && answers_error(action, STATUS_INTERNAL_SERVER_ERROR, e.message@)),
        event matches DetailEvent::StepRows(Err(e)) ==> (next is Finished
            && answers_error(action, STATUS_INTERNAL_SERVER_ERROR, e.message@)),
        event matches DetailEvent::TagRows(Err(e)) ==> (next is Finished
            && answers_error(action, STATUS_INTERNAL_SERVER_ERROR, e.message@)),
        (state matches DetailLookup::AwaitTags(id, recipe, ingredients, steps) ==> (
            event matches DetailEvent::TagRows(Ok(tags)) ==> (next is Finished
                && action == DetailAction::Respond(Reply { status: STATUS_OK,
                    body: Body::Json(RecipeDetail { recipe, ingredients, steps, tags }) })))),
        (state matches DetailLookup::AwaitRecipe(id) ==> (
            event matches DetailEvent::RecipeRow(Ok(Some(recipe))) ==> (
                next == DetailLookup::AwaitIngredients(id, recipe)
                && action == DetailAction::Run(DetailQuery::Ingredients(id))))),
        (state matches DetailLookup::AwaitIngredients(id, recipe) ==> (
            event matches DetailEvent::IngredientRows(Ok(ingredients)) ==> (
                next == DetailLookup::AwaitSteps(id, recipe, ingredients)
                && action == DetailAction::Run(DetailQuery::Steps(id))))),
        (state matches DetailLookup::AwaitSteps(id, recipe, ingredients) ==> (
            event matches DetailEvent::StepRows(Ok(steps)) ==> (
                next == DetailLookup::AwaitTags(id, recipe, ingredients, steps)
                && action == DetailAction::Run(DetailQuery::Tags(id))))),
{
}

} // verus!
