//! Creating and upgrading the store's schema.
//!
//! The store records its schema version. A fresh store (version 0) gets
//! every table; a store at version 4 gains the `fame` column; stores at
//! version 5 or later are left alone. Versions 1 to 3, and negative ones,
//! cannot be upgraded.

use vstd::prelude::*;

verus! {

/// The schema version that an upgraded store ends at.
pub const CURRENT_SCHEMA_VERSION: i64 = 5;

/// One step of a schema upgrade, run in order against the store.
#[derive(Clone, Copy, Debug, PartialEq, Eq, Structural)]
pub enum SchemaStep {
    /// Tell the operator that the store at this version is being upgraded.
    Announce(i64),
    /// Create the `users` table.
    CreateUsers,
    /// Create the `products` table.
    CreateProducts,
    /// Create the `transfers` table.
    CreateTransfers,
    /// Insert user 0, the placeholder consumer `-` that pays nothing.
    InsertPlaceholderUser,
    /// Create the `user_products` table of offers.
    CreateUserProducts,
    /// Add the `fame` column to `users`.
    AddFameColumn,
    /// Start every member's fame at their NBR.
    CopyNbrToFame,
    /// Record the schema version in the store.
    SetVersion(i64),
}

/// Whether a store at this version can be brought up to date.
pub open spec fn upgradable(version: i64) -> bool {
    version == 0 || version >= 4
}

/// The steps that create the tables of a fresh store.
pub open spec fn fresh_steps() -> Seq<SchemaStep> {
    seq![
        SchemaStep::Announce(0),
        SchemaStep::CreateUsers,
        SchemaStep::CreateProducts,
        SchemaStep::CreateTransfers,
        SchemaStep::InsertPlaceholderUser,
        SchemaStep::CreateUserProducts,
    ]
}

/// The steps that bring a version-4 store to version 5.
pub open spec fn fame_steps() -> Seq<SchemaStep> {
    seq![
        SchemaStep::Announce(4),
        SchemaStep::AddFameColumn,
        SchemaStep::CopyNbrToFame,
        SchemaStep::SetVersion(5),
    ]
}

/// The upgrade of a store found at `version`: a fresh store is created at
/// version 4 and then upgraded like any version-4 store.
pub open spec fn upgrade_steps(version: i64) -> Seq<SchemaStep> {
    if version == 0 {
        fresh_steps() + fame_steps()
    } else if version == 4 {
        fame_steps()
    } else {
        Seq::empty()
    }
}

/// The version recorded in the store after running `steps` on a store at `version`.
pub open spec fn version_after(version: i64, steps: Seq<SchemaStep>) -> i64
    decreases steps.len(),
{
    if steps.len() == 0 {
        version
    } else {
        match steps.last() {
            SchemaStep::SetVersion(n) => n,
            _ => version_after(version, steps.drop_last()),
        }
    }
}

/// Plans the upgrade of a store found at `version`.
pub fn upgrade_plan(version: i64) -> (steps: Vec<SchemaStep>)
    requires
        upgradable(version),
    ensures
        steps@ == upgrade_steps(version),
{
    let mut steps: Vec<SchemaStep> = Vec::new();
    let mut db_version: i64 = version;
    if db_version == 0 {
        steps.push(SchemaStep::Announce(0));
        steps.push(SchemaStep::CreateUsers);
        steps.push(SchemaStep::CreateProducts);
        steps.push(SchemaStep::CreateTransfers);
        steps.push(SchemaStep::InsertPlaceholderUser);
        steps.push(SchemaStep::CreateUserProducts);
        db_version = 4;
    }
    if db_version == 4 {
        steps.push(SchemaStep::Announce(4));
        steps.push(SchemaStep::AddFameColumn);
        steps.push(SchemaStep::CopyNbrToFame);
        steps.push(SchemaStep::SetVersion(CURRENT_SCHEMA_VERSION));
    }
    proof {
        if version == 0 {
            assert(steps@ =~= fresh_steps() + fame_steps());
        } else if version == 4 {
            assert(steps@ =~= fame_steps());
        } else {
            assert(steps@ =~= Seq::<SchemaStep>::empty());
        }
    }
    steps
}

/// An upgrade always leaves the store at the current version or later.
pub proof fn lemma_upgrade_reaches_current(version: i64)
    requires
        upgradable(version),
    ensures
        version_after(version, upgrade_steps(version)) >= CURRENT_SCHEMA_VERSION,
        version >= CURRENT_SCHEMA_VERSION ==> version_after(version, upgrade_steps(version))
            == version,
{
    let s = upgrade_steps(version);
    if version == 0 || version == 4 {
        assert(s.last() == SchemaStep::SetVersion(5));
    }
}

/// Upgrading is idempotent: a store that was just upgraded needs no further steps.
pub proof fn lemma_upgrade_idempotent(version: i64)
    requires
        upgradable(version),
    ensures
        upgradable(version_after(version, upgrade_steps(version))),
        upgrade_steps(version_after(version, upgrade_steps(version))) == Seq::<SchemaStep>::empty(),
{
    lemma_upgrade_reaches_current(version);
}

/// An existing store is never recreated: from version 4 on, no table is
/// created and the placeholder user is not inserted again. A version-4 store
/// gains the fame column before fame is filled in, and ends at version 5.
pub proof fn lemma_existing_store_kept(version: i64)
    requires
        version >= 4,
    ensures
        forall|i: int|
            0 <= i < upgrade_steps(version).len() ==> upgrade_steps(version)[i]
                != SchemaStep::CreateUsers && upgrade_steps(version)[i]
                != SchemaStep::CreateProducts && upgrade_steps(version)[i]
                != SchemaStep::CreateTransfers && upgrade_steps(version)[i]
                != SchemaStep::CreateUserProducts && upgrade_steps(version)[i]
                != SchemaStep::InsertPlaceholderUser,
        version == 4 ==> exists|i: int, j: int|
            0 <= i < j < upgrade_steps(version).len() && upgrade_steps(version)[i]
                == SchemaStep::AddFameColumn && upgrade_steps(version)[j]
                == SchemaStep::CopyNbrToFame,
        version == 4 ==> upgrade_steps(version).last() == SchemaStep::SetVersion(
            CURRENT_SCHEMA_VERSION,
        ),
        version > 4 ==> upgrade_steps(version).len() == 0,
{
    if version == 4 {
        let s = upgrade_steps(version);
        assert(s[1] == SchemaStep::AddFameColumn);
        assert(s[2] == SchemaStep::CopyNbrToFame);
    }
}

/// A fresh store gets every table, the placeholder user, and the fame column,
/// each exactly once.
pub proof fn lemma_fresh_store_complete()
    ensures
        upgrade_steps(0).len() == 10,
        upgrade_steps(0).contains(SchemaStep::CreateUsers),
        upgrade_steps(0).contains(SchemaStep::CreateProducts),
        upgrade_steps(0).contains(SchemaStep::CreateTransfers),
        upgrade_steps(0).contains(SchemaStep::CreateUserProducts),
        upgrade_steps(0).contains(SchemaStep::InsertPlaceholderUser),
        upgrade_steps(0).contains(SchemaStep::AddFameColumn),
        upgrade_steps(0).no_duplicates(),
{
    let s = upgrade_steps(0);
    assert(s[1] == SchemaStep::CreateUsers);
    assert(s[2] == SchemaStep::CreateProducts);
    assert(s[3] == SchemaStep::CreateTransfers);
    assert(s[4] == SchemaStep::InsertPlaceholderUser);
    assert(s[5] == SchemaStep::CreateUserProducts);
    assert(s[7] == SchemaStep::AddFameColumn);
}

} // verus!
