//! A database transaction that runs a list of statements, as a state
//! machine: each call takes the outcome of the last action and gives the next
//! one. The caller performs the actions against the database.

use vstd::prelude::*;
use crate::models::{CreateRecipeStep, Recipe};
use crate::reply::{Body, DbError, Reply, STATUS_INTERNAL_SERVER_ERROR};

verus! {

/// The columns of a new recipe row.
#[derive(Debug, Clone, PartialEq)]
pub struct NewRecipe {
    pub name: String,
    pub description: Option<String>,
    pub servings: i32,
    pub prep_time_mins: Option<i32>,
    pub cook_time_mins: Option<i32>,
    pub difficulty: Option<String>,
    pub cuisine: Option<String>,
    pub meal_type: Option<String>,
    pub source: Option<String>,
}

/// The columns of a recipe's ingredient line, as written to the database.
#[derive(Debug, Clone, PartialEq)]
pub struct IngredientLine {
    pub ingredient_id: Option<u128>,
    pub custom_name: Option<String>,
    pub quantity: Option<String>,
    pub unit: Option<String>,
    pub preparation: Option<String>,
    pub optional: bool,
    pub sort_order: Option<i32>,
}

/// A statement that a transaction runs.
#[derive(Debug, Clone, PartialEq)]
pub enum Statement {
    /// Insert a recipe row and give it back.
    InsertRecipe(NewRecipe),
    /// Insert an ingredient line of a recipe.
    InsertIngredient { recipe_id: u128, line: IngredientLine },
    /// Insert a step of a recipe.
    InsertStep { recipe_id: u128, step: CreateRecipeStep },
    /// Insert a tag of a recipe.
    InsertTag { recipe_id: u128, tag: String },
    /// Delete every tag of a recipe.
    DeleteTags { recipe_id: u128 },
    /// Delete the steps of a recipe whose number is not in `keep`.
    DeleteStepsExcept { recipe_id: u128, keep: Vec<i32> },
    /// Insert a step of a recipe, or replace the one with its number.
    UpsertStep { recipe_id: u128, step: CreateRecipeStep },
    /// Delete the ingredient lines of a recipe whose sort order is not in `keep`.
    DeleteIngredientsExcept { recipe_id: u128, keep: Vec<i32> },
    /// Insert an ingredient line of a recipe, or replace the one with its sort order.
    UpsertIngredient { recipe_id: u128, line: IngredientLine },
}

/// How a transaction reports a failure: as an error object or as plain text.
#[derive(Debug, Clone, Copy, PartialEq)]
pub enum ErrorStyle {
    Json,
    Text,
}

/// Where a transaction stands.
#[derive(Debug, Clone, PartialEq)]
pub enum TxPhase {
    /// The transaction was asked to begin.
    Beginning,
    /// A statement was run.
    Executing,
    /// A statement failed with this message and a rollback was asked for.
    RollingBack(String),
    /// The commit was asked for.
    Committing,
    /// The reply was given.
    Finished,
}

/// The outcome of the last action.
#[derive(Debug, Clone, PartialEq)]
pub enum TxEvent {
    /// It succeeded.
    Done,
    /// It succeeded and gave back the inserted recipe row.
    Inserted(Recipe),
    /// It failed.
    Failed(DbError),
}

/// What to do next.
#[derive(Debug, Clone, PartialEq)]
pub enum TxAction {
    Begin,
    Execute(Statement),
    Rollback,
    Commit,
    Respond(Reply<()>),
}

/// A transaction in progress: the statements still to run, how it reports
/// failure, whether a failed commit is reported, and the status of success.
pub struct Tx {
    pub pending: Vec<Statement>,
    pub style: ErrorStyle,
    pub commit_checked: bool,
    pub success_status: u16,
    pub phase: TxPhase,
}

/// The model of a transaction.
pub struct TxView {
    pub pending: Seq<Statement>,
    pub style: ErrorStyle,
    pub commit_checked: bool,
    pub success_status: u16,
    pub phase: TxPhase,
}

impl View for Tx {
    type V = TxView;

    open spec fn view(&self) -> TxView {
        TxView {
            pending: self.pending@,
            style: self.style,
            commit_checked: self.commit_checked,
            success_status: self.success_status,
            phase: self.phase,
        }
    }
}

/// `500` with the message, in the body the style asks for.
pub open spec fn failure_reply(style: ErrorStyle, message: String) -> Reply<()> {
    match style {
        ErrorStyle::Json => Reply { status: STATUS_INTERNAL_SERVER_ERROR, body: Body::Error(message) },
        ErrorStyle::Text => Reply { status: STATUS_INTERNAL_SERVER_ERROR, body: Body::Text(message) },
    }
}

/// The status of success with no body.
pub open spec fn success_reply(t: TxView) -> Reply<()> {
    Reply { status: t.success_status, body: Body::Empty }
}

/// `t` in another phase.
pub open spec fn with_phase(t: TxView, phase: TxPhase) -> TxView {
    TxView { pending: t.pending, style: t.style, commit_checked: t.commit_checked,
        success_status: t.success_status, phase }
}

/// After a success: run the next statement, or commit when none is left.
pub open spec fn advance(t: TxView) -> (TxView, TxAction) {
    if t.pending.len() == 0 {
        (with_phase(t, TxPhase::Committing), TxAction::Commit)
    } else {
        (TxView { pending: t.pending.drop_first(), ..with_phase(t, TxPhase::Executing) },
         TxAction::Execute(t.pending[0]))
    }
}

/// The next state and action, given the outcome of the last action.
pub open spec fn tx_next(t: TxView, event: TxEvent) -> (TxView, TxAction) {
    match t.phase {
        TxPhase::Beginning => match event {
            TxEvent::Failed(e) => (with_phase(t, TxPhase::Finished),
                TxAction::Respond(failure_reply(t.style, e.message))),
            _ => advance(t),
        },
        TxPhase::Executing => match event {
            TxEvent::Failed(e) => (with_phase(t, TxPhase::RollingBack(e.message)), TxAction::Rollback),
            _ => advance(t),
        },
        TxPhase::RollingBack(message) => (with_phase(t, TxPhase::Finished),
            TxAction::Respond(failure_reply(t.style, message))),
        TxPhase::Committing => {
            if t.commit_checked && event is Failed {
                (with_phase(t, TxPhase::Finished),
                 TxAction::Respond(failure_reply(t.style, event->Failed_0.message)))
            } else {
                (with_phase(t, TxPhase::Finished), TxAction::Respond(success_reply(t)))
            }
        },
        TxPhase::Finished => (t, TxAction::Respond(success_reply(t))),
    }
}

/// The actions that a transaction takes on the given outcomes, up to its reply.
pub open spec fn tx_run(t: TxView, events: Seq<TxEvent>) -> Seq<TxAction>
    decreases events.len(),
{
    if events.len() == 0 || t.phase is Finished {
        Seq::empty()
    } else {
        let (next, action) = tx_next(t, events[0]);
        seq![action] + tx_run(next, events.drop_first())
    }
}

/// `n` successes in a row.
pub open spec fn successes(n: nat) -> Seq<TxEvent> {
    Seq::new(n, |i: int| TxEvent::Done)
}

/// The actions that run each statement, in order.
pub open spec fn executions(statements: Seq<Statement>) -> Seq<TxAction> {
    statements.map_values(|s: Statement| TxAction::Execute(s))
}

/// A transaction whose every action succeeds runs each of its statements
/// once, in order, then commits, then replies with its success status:
/// from the start (or after a successful statement), `n` pending statements
/// and `n + 2` successes give exactly that trace.
pub proof fn lemma_all_succeed(t: TxView)
    requires
        t.phase is Beginning || t.phase is Executing,
    ensures
        tx_run(t, successes(t.pending.len() + 2))
            == executions(t.pending) + seq![TxAction::Commit, TxAction::Respond(success_reply(t))],
    decreases t.pending.len(),
{
    let n = t.pending.len();
    let events = successes(n + 2);
    let (next, action) = tx_next(t, events[0]);
    assert(events.drop_first() =~= successes(n + 1));
    if n == 0 {
        let (last, reply) = tx_next(next, TxEvent::Done);
        assert(successes(1).drop_first() =~= Seq::<TxEvent>::empty());
        assert(tx_run(next, successes(1)) == seq![reply] + tx_run(last, Seq::<TxEvent>::empty()));
        assert(executions(t.pending) =~= Seq::<TxAction>::empty());
        assert(tx_run(t, events) =~= seq![TxAction::Commit, TxAction::Respond(success_reply(t))]);
    } else {
        lemma_all_succeed(next);
        assert(success_reply(next) == success_reply(t));
        assert(executions(t.pending) =~= seq![TxAction::Execute(t.pending[0])] + executions(next.pending));
        assert(tx_run(t, events) =~= seq![action] + tx_run(next, successes(n + 1)));
    }
}

/// A failed statement is rolled back and reported, and nothing runs after
/// it: when the statement at index `k` fails, the transaction has run the
/// statements before it and that one, then asks for a rollback, then, whatever
/// the rollback's outcome, replies `500` with the statement's failure. It
/// never commits.
pub proof fn lemma_failure_rolls_back(t: TxView, k: nat, e: DbError, after: TxEvent)
    requires
        t.phase is Beginning || t.phase is Executing,
        k < t.pending.len(),
    ensures
        tx_run(t, successes(k + 1) + seq![TxEvent::Failed(e), after])
            == executions(t.pending.take(k + 1int)) + seq![TxAction::Rollback,
                TxAction::Respond(failure_reply(t.style, e.message))],
        !tx_run(t, successes(k + 1) + seq![TxEvent::Failed(e), after]).contains(TxAction::Commit),
    decreases k,
{
    let events = successes(k + 1) + seq![TxEvent::Failed(e), after];
    let (next, action) = tx_next(t, events[0]);
    let rest = events.drop_first();
    assert(action == TxAction::Execute(t.pending[0]));
    if k == 0 {
        assert(rest =~= seq![TxEvent::Failed(e), after]);
        let (back, rollback) = tx_next(next, TxEvent::Failed(e));
        let (done, reply) = tx_next(back, after);
        assert(rest.drop_first() =~= seq![after]);
        assert(seq![after].drop_first() =~= Seq::<TxEvent>::empty());
        assert(tx_run(done, Seq::<TxEvent>::empty()) == Seq::<TxAction>::empty());
        assert(tx_run(back, seq![after]) =~= seq![reply]);
        assert(tx_run(next, rest) =~= seq![rollback, reply]);
        assert(t.pending.take(1) =~= seq![t.pending[0]]);
        assert(executions(t.pending.take(1)) =~= seq![action]);
    } else {
        assert(rest =~= successes(k) + seq![TxEvent::Failed(e), after]);
        lemma_failure_rolls_back(next, (k - 1) as nat, e, after);
        assert(next.pending.take(k as int) =~= t.pending.take(k + 1int).drop_first());
        assert(executions(t.pending.take(k + 1int))
            =~= seq![action] + executions(next.pending.take(k as int)));
    }
    let trace = tx_run(t, events);
    assert(trace =~= executions(t.pending.take(k + 1int)) + seq![TxAction::Rollback,
        TxAction::Respond(failure_reply(t.style, e.message))]);
    assert forall|i: int| 0 <= i < trace.len() implies trace[i] != TxAction::Commit by {
        if i < k + 1 {
            assert(trace[i] == TxAction::Execute(t.pending.take(k + 1int)[i]));
        }
    }
}

/// A transaction that fails to begin replies `500` with the failure at once
/// and runs nothing.
pub proof fn lemma_begin_failure(t: TxView, e: DbError, rest: Seq<TxEvent>)
    requires
        t.phase is Beginning,
    ensures
        tx_run(t, seq![TxEvent::Failed(e)] + rest)
            == seq![TxAction::Respond(failure_reply(t.style, e.message))],
{
    let events = seq![TxEvent::Failed(e)] + rest;
    let (next, action) = tx_next(t, events[0]);
    assert(next.phase is Finished);
    assert(tx_run(next, events.drop_first()) == Seq::<TxAction>::empty());
    assert(tx_run(t, events) =~= seq![action]);
}

/// A transaction whose statements all succeed but whose commit fails
/// replies `500` with the failure when it checks its commit, and its success
/// status when it does not.
pub proof fn lemma_commit_failure(t: TxView, e: DbError)
    requires
        t.phase is Beginning || t.phase is Executing,
    ensures
        tx_run(t, successes(t.pending.len() + 1) + seq![TxEvent::Failed(e)])
            == executions(t.pending) + seq![TxAction::Commit, TxAction::Respond(
                if t.commit_checked { failure_reply(t.style, e.message) } else { success_reply(t) })],
    decreases t.pending.len(),
{
    let n = t.pending.len();
    let events = successes(n + 1) + seq![TxEvent::Failed(e)];
    let (next, action) = tx_next(t, events[0]);
    if n == 0 {
        assert(events.drop_first() =~= seq![TxEvent::Failed(e)]);
        let (last, reply) = tx_next(next, TxEvent::Failed(e));
        assert(seq![TxEvent::Failed(e)].drop_first() =~= Seq::<TxEvent>::empty());
        assert(tx_run(last, Seq::<TxEvent>::empty()) == Seq::<TxAction>::empty());
        assert(tx_run(next, seq![TxEvent::Failed(e)]) =~= seq![reply]);
        assert(executions(t.pending) =~= Seq::<TxAction>::empty());
    } else {
        assert(events.drop_first() =~= successes(n) + seq![TxEvent::Failed(e)]);
        lemma_commit_failure(next, e);
        assert(executions(t.pending) =~= seq![TxAction::Execute(t.pending[0])] + executions(next.pending));
    }
    assert(tx_run(t, events) =~= executions(t.pending) + seq![TxAction::Commit, TxAction::Respond(
        if t.commit_checked { failure_reply(t.style, e.message) } else { success_reply(t) })]);
}

/// A failure is answered `500` with its message, as an error object or as
/// plain text as the transaction's style says; success is answered with the
/// transaction's success status and no body.
pub proof fn lemma_replies(t: TxView, style: ErrorStyle, message: String)
    ensures
        failure_reply(style, message).status == STATUS_INTERNAL_SERVER_ERROR,
        style == ErrorStyle::Json ==> failure_reply(style, message).body == Body::<()>::Error(message),
        style == ErrorStyle::Text ==> failure_reply(style, message).body == Body::<()>::Text(message),
        success_reply(t).status == t.success_status,
        success_reply(t).body == Body::<()>::Empty,
{
}

impl Tx {
    /// A transaction that will run `statements` in order, and its first
    /// action, which begins it.
    pub fn open(statements: Vec<Statement>, style: ErrorStyle, commit_checked: bool, success_status: u16)
        -> (r: (Tx, TxAction))
        ensures
            r.0@ == (TxView { pending: statements@, style, commit_checked, success_status,
                phase: TxPhase::Beginning }),
            r.1 == TxAction::Begin,
    {
        (Tx { pending: statements, style, commit_checked, success_status, phase: TxPhase::Beginning },
         TxAction::Begin)
    }

    /// Whether the reply was given.
    pub fn is_finished(&self) -> (b: bool)
        ensures
            b == (self.phase is Finished),
    {
        match self.phase {
            TxPhase::Finished => true,
            _ => false,
        }
    }

    /// The next state and action, given the outcome of the last action;
    /// see `tx_next`.
    pub fn step(self, event: TxEvent) -> (r: (Tx, TxAction))
        requires
            !(self.phase is Finished),
        ensures
            (r.0@, r.1) == tx_next(self@, event),
    {
        let Tx { pending, style, commit_checked, success_status, phase } = self;
        match phase {
            TxPhase::Beginning => match event {
                TxEvent::Failed(e) => {
                    let reply = Self::failure(style, e.message);
                    (Tx { pending, style, commit_checked, success_status, phase: TxPhase::Finished },
                     TxAction::Respond(reply))
                },
                _ => Self::advance(Tx { pending, style, commit_checked, success_status, phase: TxPhase::Beginning }),
            },
            TxPhase::Executing => match event {
                TxEvent::Failed(e) => {
                    (Tx { pending, style, commit_checked, success_status,
                        phase: TxPhase::RollingBack(e.message) }, TxAction::Rollback)
                },
                _ => Self::advance(Tx { pending, style, commit_checked, success_status, phase: TxPhase::Executing }),
            },
            TxPhase::RollingBack(message) => {
                let reply = Self::failure(style, message);
                (Tx { pending, style, commit_checked, success_status, phase: TxPhase::Finished },
                 TxAction::Respond(reply))
            },
            TxPhase::Committing => {
                let reply = match event {
                    TxEvent::Failed(e) => {
                        if commit_checked {
                            Self::failure(style, e.message)
                        } else {
                            Reply { status: success_status, body: Body::Empty }
                        }
                    },
                    _ => Reply { status: success_status, body: Body::Empty },
                };
                (Tx { pending, style, commit_checked, success_status, phase: TxPhase::Finished },
                 TxAction::Respond(reply))
            },
            TxPhase::Finished => {
                (Tx { pending, style, commit_checked, success_status, phase: TxPhase::Finished },
                 TxAction::Respond(Reply { status: success_status, body: Body::Empty }))
            },
        }
    }

    /// After a success: run the next statement, or commit when none is left.
    fn advance(self) -> (r: (Tx, TxAction))
        ensures
            (r.0@, r.1) == advance(self@),
    {
        let ghost t = self@;
        let Tx { mut pending, style, commit_checked, success_status, phase } = self;
        if pending.len() == 0 {
            (Tx { pending, style, commit_checked, success_status, phase: TxPhase::Committing },
             TxAction::Commit)
        } else {
            let first = pending.remove(0);
            assert(pending@ =~= t.pending.drop_first());
            (Tx { pending, style, commit_checked, success_status, phase: TxPhase::Executing },
             TxAction::Execute(first))
        }
    }

    /// `500` with the message, in the body the style asks for.
    fn failure(style: ErrorStyle, message: String) -> (r: Reply<()>)
        ensures
            r == failure_reply(style, message),
    {
        match style {
            ErrorStyle::Json => Reply { status: STATUS_INTERNAL_SERVER_ERROR, body: Body::Error(message) },
            ErrorStyle::Text => Reply { status: STATUS_INTERNAL_SERVER_ERROR, body: Body::Text(message) },
        }
    }
}

} // verus!
