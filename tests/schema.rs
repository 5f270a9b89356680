use contact_form::schema::{
    check_ready, contacts_columns, contacts_table, create_goal_type_sql, down_steps, drop_goal_type_sql, up_steps,
    ColumnDefault, ColumnKind, SchemaError, SchemaPresence, SchemaStep,
};

fn presence(goal_type: bool, contacts_table: bool) -> SchemaPresence {
    SchemaPresence { goal_type, contacts_table }
}

fn apply(mut p: SchemaPresence, steps: &[SchemaStep]) -> SchemaPresence {
    for s in steps {
        match s {
            SchemaStep::CreateGoalType => p.goal_type = true,
            SchemaStep::CreateContactsTable => p.contacts_table = true,
            SchemaStep::DropContactsTable => p.contacts_table = false,
            SchemaStep::DropGoalType => p.goal_type = false,
        }
    }
    p
}

#[test]
fn up_from_empty_creates_type_then_table() {
    assert_eq!(up_steps(presence(false, false)), vec![SchemaStep::CreateGoalType, SchemaStep::CreateContactsTable]);
    assert_eq!(up_steps(presence(true, false)), vec![SchemaStep::CreateContactsTable]);
    assert_eq!(up_steps(presence(false, true)), vec![SchemaStep::CreateGoalType]);
}

#[test]
fn second_up_is_a_no_op() {
    for (a, b) in [(false, false), (true, false), (false, true), (true, true)] {
        let p = presence(a, b);
        let once = apply(p, &up_steps(p));
        assert_eq!(once, presence(true, true));
        assert!(up_steps(once).is_empty());
        assert_eq!(apply(once, &up_steps(once)), once);
    }
}

#[test]
fn down_drops_table_before_type() {
    assert_eq!(down_steps(presence(true, true)), vec![SchemaStep::DropContactsTable, SchemaStep::DropGoalType]);
    assert!(down_steps(presence(false, false)).is_empty());
    assert_eq!(apply(presence(true, true), &down_steps(presence(true, true))), presence(false, false));
}

#[test]
fn startup_refuses_incomplete_schema() {
    assert_eq!(check_ready(presence(true, true)), Ok(()));
    assert_eq!(
        check_ready(presence(false, true)),
        Err(SchemaError { goal_type_missing: true, contacts_table_missing: false })
    );
    assert_eq!(
        check_ready(presence(true, false)),
        Err(SchemaError { goal_type_missing: false, contacts_table_missing: true })
    );
}

#[test]
fn goal_type_statement_lists_the_five_labels() {
    assert_eq!(
        create_goal_type_sql(),
        "CREATE TYPE goal AS ENUM ('BuyFirstProperty', 'MaxCashFlow', 'Appreciation', 'Scale', 'Exchange')"
    );
    assert_eq!(drop_goal_type_sql(), "DROP TYPE IF EXISTS goal");
    assert_eq!(contacts_table(), "contacts");
}

#[test]
fn contacts_table_layout() {
    let cols = contacts_columns();
    let names: Vec<&str> = cols.iter().map(|c| c.name.as_str()).collect();
    assert_eq!(names, vec!["id", "full_name", "email", "phone", "market", "goal", "created_at", "updated_at"]);
    assert_eq!(cols[0].kind, ColumnKind::Uuid);
    assert!(cols[0].primary_key && cols[0].not_null);
    assert_eq!(cols[0].default, ColumnDefault::RandomUuid);
    assert_eq!(cols[5].kind, ColumnKind::GoalType);
    assert!(cols[1..6].iter().all(|c| c.not_null && !c.primary_key && c.default == ColumnDefault::NoDefault));
    assert_eq!(cols[6].kind, ColumnKind::Timestamp);
    assert_eq!(cols[7].default, ColumnDefault::CurrentTimestamp);
    assert!(!cols[7].not_null);
}
