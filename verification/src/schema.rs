//! Which schema migrations a database needs.
use vstd::prelude::*;

verus! {

/// The schema version this application writes.
pub const SCHEMA_VERSION: i32 = 1;

/// The migrations a database needs: whether the initial schema is created, and the
/// version recorded afterwards.
#[derive(Debug, Clone, Copy, PartialEq, Eq)]
pub struct MigrationPlan {
    pub create_initial_schema: bool,
    pub record_version: i32,
}

/// The migrations a database at version `current` needs: none when it is up to date,
/// else the steps from its version up to the current one (the initial schema from
/// version 0) and the current version recorded.
pub fn migration_plan(current: i32) -> (plan: Option<MigrationPlan>)
    ensures
        (plan is Some) == (current < SCHEMA_VERSION),
        match plan {
            Some(p) => p.create_initial_schema == (current < 1) && p.record_version == SCHEMA_VERSION,
            None => true,
        },
{
    if current < SCHEMA_VERSION {
        Some(MigrationPlan { create_initial_schema: current < 1, record_version: SCHEMA_VERSION })
    } else {
        None
    }
}

} // verus!
