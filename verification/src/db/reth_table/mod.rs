//! The `EntityTable` of the node's MDBX database: its key and value types
//! and how they are laid out as bytes.

pub mod key;
pub mod order;
pub mod table;
pub mod value;

pub use key::EntityKey;
pub use table::{EntityTable, EntityTableInfo};
pub use value::EntityValue;
