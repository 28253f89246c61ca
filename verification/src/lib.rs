//! Entity storage for a reth node: the types and rules behind the entity
//! tables, the import/export commands and the event subscriptions.

pub mod cmd;
pub mod db;
pub mod rpc;
