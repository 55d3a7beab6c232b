//! The migration engine's plan: which schema changes are due for a store at a
//! given schema version, and the version each of them leaves behind.

use vstd::prelude::*;

verus! {

/// Creates the table of creators, keyed by the platform's id.
pub const CREATE_DJS: &'static str = "
        CREATE TABLE IF NOT EXISTS djs (
            id          INTEGER PRIMARY KEY,
            mixcloud_id TEXT NOT NULL UNIQUE,
            username    TEXT NOT NULL
        )
    ";

/// Creates the table of published sets, keyed by their external address.
pub const CREATE_SETS: &'static str = "
        CREATE TABLE IF NOT EXISTS sets (
            id           INTEGER PRIMARY KEY,
            dj_id        INTEGER NOT NULL,
            url          TEXT NOT NULL UNIQUE,
            cover_url    TEXT NOT NULL,
            publish_date TEXT NOT NULL,
            updated_date TEXT NOT NULL,

            FOREIGN KEY(dj_id) REFERENCES djs(id)
        )
    ";

/// One step of a plan: a statement to run inside a transaction, and the
/// schema version to record once that transaction has committed.
#[derive(Debug)]
pub struct Migration {
    pub version: i64,
    pub statement: String,
}

pub struct MigrationView {
    pub version: int,
    pub statement: Seq<char>,
}

impl View for Migration {
    type V = MigrationView;

    open spec fn view(&self) -> MigrationView {
        MigrationView { version: self.version as int, statement: self.statement@ }
    }
}

/// The views of a plan's steps, in order.
pub open spec fn migration_views(plan: Seq<Migration>) -> Seq<MigrationView> {
    Seq::new(plan.len(), |i: int| plan[i]@)
}

/// The views of a list of statements, in order.
pub open spec fn statement_views(statements: Seq<String>) -> Seq<Seq<char>> {
    Seq::new(statements.len(), |i: int| statements[i]@)
}

/// The statements of this library's schema, oldest first. The schema version
/// of a store counts how many of them it has applied.
pub open spec fn schema_statements() -> Seq<Seq<char>> {
    seq![CREATE_DJS@, CREATE_SETS@]
}

/// The plan for a store at version `stored`: every statement beyond that
/// version, in order, each recording the version one above the one before.
/// A store whose version is not below the number of statements (or is
/// negative) has nothing to run.
pub open spec fn planned(stored: int, statements: Seq<Seq<char>>) -> Seq<MigrationView> {
    if 0 <= stored < statements.len() {
        Seq::new(
            (statements.len() - stored) as nat,
            |k: int| MigrationView { version: stored + k + 1, statement: statements[stored + k] },
        )
    } else {
        Seq::empty()
    }
}

/// The schema version of a store that was at `stored` and has committed the
/// given steps in order. A step counts only where it records the version
/// directly above the current one: steps are never skipped, reordered or
/// applied twice.
pub open spec fn version_after(stored: int, steps: Seq<MigrationView>) -> int
    decreases steps.len(),
{
    if steps.len() == 0 {
        stored
    } else {
        let before = version_after(stored, steps.drop_last());
        if steps.last().version == before + 1 {
            before + 1
        } else {
            before
        }
    }
}

/// The statements of this library's schema, oldest first.
pub fn migrations() -> (r: Vec<String>)
    ensures
        statement_views(r@) == schema_statements(),
{
    let mut r: Vec<String> = Vec::new();
    r.push(CREATE_DJS.to_owned());
    r.push(CREATE_SETS.to_owned());
    assert(statement_views(r@) =~= schema_statements());
    r
}

/// Plans the migrations of a store at `stored_version` against a list of
/// statements.
pub fn plan_migrations(stored_version: i64, statements: &Vec<String>) -> (plan: Vec<Migration>)
    requires
        statements@.len() <= i64::MAX,
    ensures
        migration_views(plan@) == planned(stored_version as int, statement_views(statements@)),
{
    let mut plan: Vec<Migration> = Vec::new();
    let n = statements.len();
    if stored_version < 0 || stored_version >= n as i64 {
        assert(migration_views(plan@) =~= Seq::empty());
        return plan;
    }
    let start = stored_version as usize;
    let mut i: usize = start;
    let ghost goal = planned(stored_version as int, statement_views(statements@));
    while i < n
        invariant
            start <= i <= n,
            n == statements@.len(),
            n <= i64::MAX,
            start == stored_version,
            goal == planned(stored_version as int, statement_views(statements@)),
            plan@.len() == i - start,
            migration_views(plan@) == goal.take(i - start),
        decreases n - i,
    {
        let ghost prev = plan@;
        let step = Migration { version: i as i64 + 1, statement: statements[i].clone() };
        assert(step@ == goal[i - start]);
        plan.push(step);
        assert(migration_views(prev.push(step)) =~= migration_views(prev).push(step@));
        assert(goal.take(i - start + 1) =~= goal.take(i - start).push(goal[i - start]));
        i += 1;
    }
    assert(goal.take(n - start) =~= goal);
    plan
}

/// Applying a whole plan, step by step, brings a store from any version up to
/// the number of statements; a store that is already there (or beyond) gets
/// an empty plan and stays where it is.
pub proof fn lemma_plan_reaches_latest(stored: int, statements: Seq<Seq<char>>)
    ensures
        0 <= stored <= statements.len() ==> version_after(stored, planned(stored, statements))
            == statements.len(),
        !(0 <= stored < statements.len()) ==> planned(stored, statements).len() == 0
            && version_after(stored, planned(stored, statements)) == stored,
{
    if 0 <= stored < statements.len() {
        let plan = planned(stored, statements);
        lemma_plan_prefix_advances(stored, statements, plan.len() as int);
        assert(plan.take(plan.len() as int) =~= plan);
    }
}

/// A plan that is cut short after `done` committed steps leaves the store
/// exactly `done` versions further, and the plan made there is the rest of
/// the first plan: nothing is skipped and nothing runs twice.
pub proof fn lemma_plan_prefix_advances(stored: int, statements: Seq<Seq<char>>, done: int)
    requires
        0 <= stored < statements.len(),
        0 <= done <= statements.len() - stored,
    ensures
        version_after(stored, planned(stored, statements).take(done)) == stored + done,
        planned(stored + done, statements) == planned(stored, statements).skip(done),
    decreases done,
{
    let plan = planned(stored, statements);
    assert(planned(stored + done, statements) =~= plan.skip(done));
    if done > 0 {
        lemma_plan_prefix_advances(stored, statements, done - 1);
        assert(plan.take(done).drop_last() =~= plan.take(done - 1));
    }
}

} // verus!
