//! Which schema migrations bring a store at a given version up to the
//! version this build writes.

use vstd::prelude::*;

verus! {

/// The schema version this build writes.
pub const CURRENT_VERSION: i32 = 4;

/// One step of the schema's history.
#[derive(Debug, Clone, Copy, PartialEq, Eq, Structural)]
pub enum Migration {
    /// Version 1: the tables, with the default channels and routes.
    InitialSchema,
    /// Version 2: profiles keep their mixer state.
    ProfileMixerState,
    /// Version 3: device settings keep the mute state and headphone
    /// volume.
    DeviceSettingsColumns,
    /// Version 4: the mic effect chain is stored.
    MicChainTable,
}

/// A migration planned for a version that has none.
#[derive(Debug, Clone, Copy, PartialEq, Eq, Structural)]
pub enum MigrationError {
    UnknownVersion(i32),
}

/// The version a migration brings the schema to.
pub open spec fn spec_version_of(m: Migration) -> int {
    match m {
        Migration::InitialSchema => 1,
        Migration::ProfileMixerState => 2,
        Migration::DeviceSettingsColumns => 3,
        Migration::MicChainTable => 4,
    }
}

/// The migration to a version, for the versions that have one.
pub open spec fn spec_migration_for(version: int) -> Option<Migration> {
    if version == 1 {
        Some(Migration::InitialSchema)
    } else if version == 2 {
        Some(Migration::ProfileMixerState)
    } else if version == 3 {
        Some(Migration::DeviceSettingsColumns)
    } else if version == 4 {
        Some(Migration::MicChainTable)
    } else {
        None
    }
}

/// The migrations to run, in order, on a store at version `current`:
/// none when it is up to date; those to versions `current + 1` up to
/// `CURRENT_VERSION` otherwise, which fails on the first version that
/// has no migration.
pub open spec fn spec_migration_plan(current: int) -> Result<Seq<Migration>, MigrationError> {
    if current >= CURRENT_VERSION {
        Ok(Seq::empty())
    } else if current < 0 {
        Err(MigrationError::UnknownVersion((current + 1) as i32))
    } else {
        Ok(
            Seq::new(
                (CURRENT_VERSION - current) as nat,
                |i: int| spec_migration_for(current + 1 + i)->Some_0,
            ),
        )
    }
}

impl Migration {
    /// The version this migration brings the schema to.
    pub fn version(self) -> (v: i32)
        ensures
            v == spec_version_of(self),
            spec_migration_for(v as int) == Some(self),
    {
        match self {
            Migration::InitialSchema => 1,
            Migration::ProfileMixerState => 2,
            Migration::DeviceSettingsColumns => 3,
            Migration::MicChainTable => 4,
        }
    }
}

/// The migration to a version, if it has one.
pub fn migration_for(version: i32) -> (r: Option<Migration>)
    ensures
        r == spec_migration_for(version as int),
{
    if version == 1 {
        Some(Migration::InitialSchema)
    } else if version == 2 {
        Some(Migration::ProfileMixerState)
    } else if version == 3 {
        Some(Migration::DeviceSettingsColumns)
    } else if version == 4 {
        Some(Migration::MicChainTable)
    } else {
        None
    }
}

/// The migrations to run, in order, on a store at version `current`.
pub fn migration_plan(current: i32) -> (r: Result<Vec<Migration>, MigrationError>)
    ensures
        match spec_migration_plan(current as int) {
            Ok(steps) => r matches Ok(plan) && plan@ == steps,
            Err(e) => r == Err::<Vec<Migration>, MigrationError>(e),
        },
{
    if current >= CURRENT_VERSION {
        return Ok(Vec::new());
    }
    let mut plan: Vec<Migration> = Vec::new();
    let mut version: i32 = current + 1;
    while version <= CURRENT_VERSION
        invariant
            current < CURRENT_VERSION,
            current + 1 <= version <= CURRENT_VERSION + 1,
            current < 0 ==> version == current + 1,
            plan@.len() == version - current - 1,
            forall|i: int|
                0 <= i < plan@.len() ==> plan@[i] == spec_migration_for(current + 1 + i)->Some_0,
        decreases CURRENT_VERSION + 1 - version,
    {
        match migration_for(version) {
            Some(m) => plan.push(m),
            None => return Err(MigrationError::UnknownVersion(version)),
        }
        version = version + 1;
    }
    proof {
        let steps = spec_migration_plan(current as int)->Ok_0;
        assert(plan@ =~= steps);
    }
    Ok(plan)
}

/// Running the plan of an outdated store at a version of zero or more
/// applies each later version's migration once, in order, and ends at
/// `CURRENT_VERSION`; a store at that version needs no migration.
pub proof fn lemma_plan_reaches_current_version(current: int)
    requires
        0 <= current < CURRENT_VERSION,
    ensures
        spec_migration_plan(current) matches Ok(steps) && steps.len() == CURRENT_VERSION - current
            && (forall|i: int|
            0 <= i < steps.len() ==> spec_version_of(#[trigger] steps[i]) == current + 1 + i)
            && spec_version_of(steps.last()) == CURRENT_VERSION,
        spec_migration_plan(CURRENT_VERSION as int) == Ok::<Seq<Migration>, MigrationError>(
            Seq::empty(),
        ),
{
}

} // verus!
