//! `entity-export`: writes every entity of a database to a JSON file.

use crate::cmd::{
    entities_from_json, entities_json, entities_to_json, resolve_conn_path, resolved_conn_path,
    CommandError,
};
use crate::db::events::opt_view;
use crate::db::{entity_views, DbType};
use vstd::prelude::*;

verus! {

/// Exports the entities of a SQLite or MDBX database to a JSON file.
pub struct DbExportCommand {
    /// The backend to read: `sqlite` unless given.
    pub db_type: DbType,
    /// The database to read; SQLite falls back to `entity.db`, MDBX needs it.
    pub conn_path: Option<String>,
    /// The JSON file to write: `entities.json` unless given.
    pub export_path: String,
}

impl DbExportCommand {
    /// The database the export reads, or the error for MDBX without a path.
    pub fn resolve_conn_path(&self) -> (path: Result<String, CommandError>)
        ensures
            match path {
                Ok(p) => resolved_conn_path(self.db_type, opt_view(self.conn_path)) == Some(p@),
                Err(e) => resolved_conn_path(self.db_type, opt_view(self.conn_path)) is None
                    && e == CommandError::MissingConnPath,
            },
            self.conn_path matches Some(given) ==> (path matches Ok(p) && p@ == given@),
            self.conn_path is None && self.db_type == DbType::Mdbx ==> (path matches Err(e) && e
                == CommandError::MissingConnPath),
    {
        resolve_conn_path(self.db_type, &self.conn_path)
    }

    /// The contents of the export file for the entities read from the
    /// database: their JSON list, in the order they were read. Importing the
    /// file reads exactly these entities back, in this order.
    pub fn export_document(entities: &Vec<(String, String)>) -> (json: Result<String, CommandError>)
        ensures
            json matches Ok(text) && text@ == entities_json(entity_views(entities@)),
            json matches Ok(text) && entities_from_json(text@) == Some(entity_views(entities@)),
    {
        entities_to_json(entities)
    }
}

} // verus!
