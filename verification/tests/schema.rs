use copiosis::schema::{upgrade_plan, SchemaStep, CURRENT_SCHEMA_VERSION};

#[test]
fn fresh_store_is_created_and_upgraded() {
    let plan = upgrade_plan(0);
    assert_eq!(
        plan,
        vec![
            SchemaStep::Announce(0),
            SchemaStep::CreateUsers,
            SchemaStep::CreateProducts,
            SchemaStep::CreateTransfers,
            SchemaStep::InsertPlaceholderUser,
            SchemaStep::CreateUserProducts,
            SchemaStep::Announce(4),
            SchemaStep::AddFameColumn,
            SchemaStep::CopyNbrToFame,
            SchemaStep::SetVersion(5),
        ]
    );
}

#[test]
fn version_four_gains_fame() {
    assert_eq!(
        upgrade_plan(4),
        vec![
            SchemaStep::Announce(4),
            SchemaStep::AddFameColumn,
            SchemaStep::CopyNbrToFame,
            SchemaStep::SetVersion(5),
        ]
    );
}

#[test]
fn current_and_later_versions_are_left_alone() {
    assert_eq!(CURRENT_SCHEMA_VERSION, 5);
    assert!(upgrade_plan(5).is_empty());
    assert!(upgrade_plan(6).is_empty());
    assert!(upgrade_plan(i64::MAX).is_empty());
}

#[test]
fn upgraded_store_needs_nothing_more() {
    for v in [0i64, 4, 5, 17] {
        let plan = upgrade_plan(v);
        let after = plan
            .iter()
            .fold(v, |cur, s| if let SchemaStep::SetVersion(n) = s { *n } else { cur });
        assert!(after >= CURRENT_SCHEMA_VERSION);
        assert!(upgrade_plan(after).is_empty());
    }
}
