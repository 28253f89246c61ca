//! The entity table's name and layout.

use vstd::prelude::*;

verus! {

/// The table that holds the entities: keys are `EntityKey`, values
/// `EntityValue`, one value per key.
#[derive(Debug, Default, Clone, Copy)]
pub struct EntityTable;

impl EntityTable {
    /// The table's name in the database.
    pub const NAME: &'static str = "EntityTable";

    /// Whether a key may hold several values: it may not.
    pub const DUPSORT: bool = false;
}

/// Describes the entity table to the database when the table is created.
#[derive(Debug)]
pub struct EntityTableInfo;

impl EntityTableInfo {
    /// The table's name.
    pub fn name(&self) -> (name: &'static str)
        ensures
            name@ == EntityTable::NAME@,
    {
        EntityTable::NAME
    }

    /// Whether the table keeps several values per key: it does not.
    pub fn is_dupsort(&self) -> (dupsort: bool)
        ensures
            dupsort == EntityTable::DUPSORT,
            !dupsort,
    {
        EntityTable::DUPSORT
    }
}

} // verus!
