//! Storage types: backend selection, entity rows and entity events.

pub mod events;
pub mod mdbx;
pub mod reth_table;

pub use events::{BlockEvent, EntityEvent, EventType};
pub use reth_table::{EntityKey, EntityTable, EntityTableInfo, EntityValue};

use vstd::prelude::*;

verus! {

/// The storage backend an entity command works on.
#[derive(Debug, Clone, Copy, PartialEq, Eq, Structural)]
pub enum DbType {
    Sqlite,
    Mdbx,
}

/// The views of a sequence of entities, each a key and a value.
pub open spec fn entity_views(entities: Seq<(String, String)>) -> Seq<(Seq<char>, Seq<char>)> {
    entities.map_values(|e: (String, String)| (e.0@, e.1@))
}

impl DbType {
    /// The name under which the backend is shown and selected.
    pub open spec fn name_spec(self) -> Seq<char> {
        match self {
            DbType::Sqlite => seq!['s', 'q', 'l', 'i', 't', 'e'],
            DbType::Mdbx => seq!['m', 'd', 'b', 'x'],
        }
    }

    /// The backend's name: `sqlite` or `mdbx`.
    pub fn to_string(&self) -> (name: String)
        ensures
            name@ == self.name_spec(),
    {
        match self {
            DbType::Sqlite => {
                proof {
                    reveal_strlit("sqlite");
                }
                "sqlite".to_owned()
            },
            DbType::Mdbx => {
                proof {
                    reveal_strlit("mdbx");
                }
                "mdbx".to_owned()
            },
        }
    }
}

} // verus!
