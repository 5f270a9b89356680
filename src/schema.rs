//! The schema the store must hold before traffic is accepted: the `goal`
//! enumerated type and the `contacts` table, created when absent and
//! dropped table first.

use vstd::prelude::*;
use vstd::string::StringExecFns;
use crate::goal::Goal;

verus! {

/// Which of the two schema objects the store holds.
#[derive(Clone, Copy, Debug, PartialEq, Eq, Structural)]
pub struct SchemaPresence {
    pub goal_type: bool,
    pub contacts_table: bool,
}

/// One change to the store's schema.
#[derive(Clone, Copy, Debug, PartialEq, Eq, Structural)]
pub enum SchemaStep {
    CreateGoalType,
    CreateContactsTable,
    DropContactsTable,
    DropGoalType,
}

/// Startup cannot go on: the schema is still incomplete.
#[derive(Clone, Copy, Debug, PartialEq, Eq, Structural)]
pub struct SchemaError {
    pub goal_type_missing: bool,
    pub contacts_table_missing: bool,
}

/// Whether the store can take `s` now: the table needs the type, and the
/// type cannot go while the table uses it.
pub open spec fn step_allowed(p: SchemaPresence, s: SchemaStep) -> bool {
    match s {
        SchemaStep::CreateContactsTable => p.goal_type,
        SchemaStep::DropGoalType => !p.contacts_table,
        _ => true,
    }
}

/// The schema after step `s`.
pub open spec fn apply_step(p: SchemaPresence, s: SchemaStep) -> SchemaPresence {
    match s {
        SchemaStep::CreateGoalType => SchemaPresence { goal_type: true, ..p },
        SchemaStep::CreateContactsTable => SchemaPresence { contacts_table: true, ..p },
        SchemaStep::DropContactsTable => SchemaPresence { contacts_table: false, ..p },
        SchemaStep::DropGoalType => SchemaPresence { goal_type: false, ..p },
    }
}

/// The schema after the steps, in order.
pub open spec fn apply_steps(p: SchemaPresence, steps: Seq<SchemaStep>) -> SchemaPresence
    decreases steps.len(),
{
    if steps.len() == 0 {
        p
    } else {
        apply_steps(apply_step(p, steps[0]), steps.drop_first())
    }
}

/// Every step is allowed when its turn comes.
pub open spec fn steps_allowed(p: SchemaPresence, steps: Seq<SchemaStep>) -> bool
    decreases steps.len(),
{
    if steps.len() == 0 {
        true
    } else {
        step_allowed(p, steps[0]) && steps_allowed(apply_step(p, steps[0]), steps.drop_first())
    }
}

/// The steps that bring the schema up: each object is created only if absent.
pub open spec fn spec_up_steps(p: SchemaPresence) -> Seq<SchemaStep> {
    (if p.goal_type { seq![] } else { seq![SchemaStep::CreateGoalType] })
        + (if p.contacts_table { seq![] } else { seq![SchemaStep::CreateContactsTable] })
}

/// The steps that take the schema down: the table goes before the type.
pub open spec fn spec_down_steps(p: SchemaPresence) -> Seq<SchemaStep> {
    (if p.contacts_table { seq![SchemaStep::DropContactsTable] } else { seq![] })
        + (if p.goal_type { seq![SchemaStep::DropGoalType] } else { seq![] })
}

/// The steps that bring the schema up from `p`.
pub fn up_steps(p: SchemaPresence) -> (r: Vec<SchemaStep>)
    ensures
        r@ == spec_up_steps(p),
{
    let mut r: Vec<SchemaStep> = Vec::new();
    if !p.goal_type {
        r.push(SchemaStep::CreateGoalType);
    }
    if !p.contacts_table {
        r.push(SchemaStep::CreateContactsTable);
    }
    assert(r@ =~= spec_up_steps(p));
    r
}

/// The steps that take the schema down from `p`.
pub fn down_steps(p: SchemaPresence) -> (r: Vec<SchemaStep>)
    ensures
        r@ == spec_down_steps(p),
{
    let mut r: Vec<SchemaStep> = Vec::new();
    if p.contacts_table {
        r.push(SchemaStep::DropContactsTable);
    }
    if p.goal_type {
        r.push(SchemaStep::DropGoalType);
    }
    assert(r@ =~= spec_down_steps(p));
    r
}

/// The schema is complete when both objects exist.
pub open spec fn ready(p: SchemaPresence) -> bool {
    p.goal_type && p.contacts_table
}

/// Refuses to start on an incomplete schema, naming what is missing.
pub fn check_ready(p: SchemaPresence) -> (r: Result<(), SchemaError>)
    ensures
        r is Ok <==> ready(p),
        r matches Err(e) ==> e.goal_type_missing == !p.goal_type && e.contacts_table_missing
            == !p.contacts_table,
{
    if p.goal_type && p.contacts_table {
        Ok(())
    } else {
        Err(SchemaError { goal_type_missing: !p.goal_type, contacts_table_missing: !p.contacts_table })
    }
}

proof fn lemma_apply_two(p: SchemaPresence, a: Seq<SchemaStep>, b: Seq<SchemaStep>)
    ensures
        apply_steps(p, a + b) == apply_steps(apply_steps(p, a), b),
        steps_allowed(p, a + b) == (steps_allowed(p, a) && steps_allowed(apply_steps(p, a), b)),
    decreases a.len(),
{
    if a.len() > 0 {
        assert((a + b).drop_first() =~= a.drop_first() + b);
        lemma_apply_two(apply_step(p, a[0]), a.drop_first(), b);
    } else {
        assert(a + b =~= b);
    }
}

proof fn lemma_apply_at_most_one(p: SchemaPresence, a: Seq<SchemaStep>)
    requires
        a.len() <= 1,
    ensures
        apply_steps(p, a) == (if a.len() == 0 { p } else { apply_step(p, a[0]) }),
        steps_allowed(p, a) == (a.len() == 0 || step_allowed(p, a[0])),
{
    reveal_with_fuel(apply_steps, 2);
    reveal_with_fuel(steps_allowed, 2);
    if a.len() == 1 {
        assert(a.drop_first().len() == 0);
    }
}

/// Bringing the schema up from any state leaves it complete, in steps the
/// store can take in order; a second run has nothing to do and changes
/// nothing.
pub proof fn lemma_up_idempotent(p: SchemaPresence)
    ensures
        steps_allowed(p, spec_up_steps(p)),
        ready(apply_steps(p, spec_up_steps(p))),
        spec_up_steps(apply_steps(p, spec_up_steps(p))).len() == 0,
        apply_steps(apply_steps(p, spec_up_steps(p)), spec_up_steps(apply_steps(p, spec_up_steps(p))))
            == apply_steps(p, spec_up_steps(p)),
{
    let a: Seq<SchemaStep> = if p.goal_type { seq![] } else { seq![SchemaStep::CreateGoalType] };
    let b: Seq<SchemaStep> = if p.contacts_table { seq![] } else { seq![SchemaStep::CreateContactsTable] };
    lemma_apply_two(p, a, b);
    lemma_apply_at_most_one(p, a);
    lemma_apply_at_most_one(apply_steps(p, a), b);
    let q = apply_steps(p, spec_up_steps(p));
    assert(spec_up_steps(q) =~= Seq::<SchemaStep>::empty());
}

/// Taking the schema down from any state removes both objects, in steps the
/// store can take in order.
pub proof fn lemma_down_complete(p: SchemaPresence)
    ensures
        steps_allowed(p, spec_down_steps(p)),
        !apply_steps(p, spec_down_steps(p)).goal_type,
        !apply_steps(p, spec_down_steps(p)).contacts_table,
{
    let a: Seq<SchemaStep> = if p.contacts_table { seq![SchemaStep::DropContactsTable] } else { seq![] };
    let b: Seq<SchemaStep> = if p.goal_type { seq![SchemaStep::DropGoalType] } else { seq![] };
    lemma_apply_two(p, a, b);
    lemma_apply_at_most_one(p, a);
    lemma_apply_at_most_one(apply_steps(p, a), b);
}

/// The store-side type of a column.
#[derive(Clone, Copy, Debug, PartialEq, Eq, Structural)]
pub enum ColumnKind {
    Uuid,
    Text,
    GoalType,
    Timestamp,
}

/// What the store fills a column with when an insert leaves it out.
#[derive(Clone, Copy, Debug, PartialEq, Eq, Structural)]
pub enum ColumnDefault {
    NoDefault,
    RandomUuid,
    CurrentTimestamp,
}

/// One column of the contacts table.
#[derive(Clone, Debug)]
pub struct ColumnSpec {
    pub name: String,
    pub kind: ColumnKind,
    pub not_null: bool,
    pub primary_key: bool,
    pub default: ColumnDefault,
}

/// The name of the enumerated type.
pub open spec fn goal_type_name() -> Seq<char> {
    "goal"@
}

/// The name of the table.
pub open spec fn contacts_table_name() -> Seq<char> {
    "contacts"@
}

/// The columns of the contacts table, in order: name, kind, not-null,
/// primary key, default.
pub open spec fn contacts_layout() -> Seq<(Seq<char>, ColumnKind, bool, bool, ColumnDefault)> {
    seq![
        ("id"@, ColumnKind::Uuid, true, true, ColumnDefault::RandomUuid),
        ("full_name"@, ColumnKind::Text, true, false, ColumnDefault::NoDefault),
        ("email"@, ColumnKind::Text, true, false, ColumnDefault::NoDefault),
        ("phone"@, ColumnKind::Text, true, false, ColumnDefault::NoDefault),
        ("market"@, ColumnKind::Text, true, false, ColumnDefault::NoDefault),
        ("goal"@, ColumnKind::GoalType, true, false, ColumnDefault::NoDefault),
        ("created_at"@, ColumnKind::Timestamp, false, false, ColumnDefault::CurrentTimestamp),
        ("updated_at"@, ColumnKind::Timestamp, false, false, ColumnDefault::CurrentTimestamp),
    ]
}

pub open spec fn column_is(c: ColumnSpec, t: (Seq<char>, ColumnKind, bool, bool, ColumnDefault)) -> bool {
    c.name@ == t.0 && c.kind == t.1 && c.not_null == t.2 && c.primary_key == t.3 && c.default == t.4
}

fn column(name: &str, kind: ColumnKind, not_null: bool, primary_key: bool, default: ColumnDefault)
    -> (r: ColumnSpec)
    ensures
        column_is(r, (name@, kind, not_null, primary_key, default)),
{
    ColumnSpec { name: String::from_str(name), kind, not_null, primary_key, default }
}

/// The columns of the contacts table.
pub fn contacts_columns() -> (r: Vec<ColumnSpec>)
    ensures
        r@.len() == contacts_layout().len(),
        forall|i: int| 0 <= i < r@.len() ==> column_is(#[trigger] r@[i], contacts_layout()[i]),
{
    let mut r: Vec<ColumnSpec> = Vec::new();
    r.push(column("id", ColumnKind::Uuid, true, true, ColumnDefault::RandomUuid));
    r.push(column("full_name", ColumnKind::Text, true, false, ColumnDefault::NoDefault));
    r.push(column("email", ColumnKind::Text, true, false, ColumnDefault::NoDefault));
    r.push(column("phone", ColumnKind::Text, true, false, ColumnDefault::NoDefault));
    r.push(column("market", ColumnKind::Text, true, false, ColumnDefault::NoDefault));
    r.push(column("goal", ColumnKind::GoalType, true, false, ColumnDefault::NoDefault));
    r.push(column("created_at", ColumnKind::Timestamp, false, false, ColumnDefault::CurrentTimestamp));
    r.push(column("updated_at", ColumnKind::Timestamp, false, false, ColumnDefault::CurrentTimestamp));
    r
}

/// The name of the contacts table.
pub fn contacts_table() -> (r: String)
    ensures
        r@ == contacts_table_name(),
{
    String::from_str("contacts")
}

/// The name of the enumerated type.
pub fn goal_type() -> (r: String)
    ensures
        r@ == goal_type_name(),
{
    String::from_str("goal")
}

/// The statement that creates the enumerated type with the five labels.
pub open spec fn create_goal_type_text() -> Seq<char> {
    "CREATE TYPE goal AS ENUM ('"@ + Goal::BuyFirstProperty.spec_label() + "', '"@
        + Goal::MaxCashFlow.spec_label() + "', '"@ + Goal::Appreciation.spec_label() + "', '"@
        + Goal::Scale.spec_label() + "', '"@ + Goal::Exchange.spec_label() + "')"@
}

/// The statement that creates the enumerated type.
pub fn create_goal_type_sql() -> (r: String)
    ensures
        r@ == create_goal_type_text(),
{
    let mut r = String::from_str("CREATE TYPE goal AS ENUM ('");
    r.append(Goal::BuyFirstProperty.label());
    r.append("', '");
    r.append(Goal::MaxCashFlow.label());
    r.append("', '");
    r.append(Goal::Appreciation.label());
    r.append("', '");
    r.append(Goal::Scale.label());
    r.append("', '");
    r.append(Goal::Exchange.label());
    r.append("')");
    r
}

/// The statement that drops the enumerated type.
pub fn drop_goal_type_sql() -> (r: String)
    ensures
        r@ == "DROP TYPE IF EXISTS goal"@,
{
    String::from_str("DROP TYPE IF EXISTS goal")
}

} // verus!
