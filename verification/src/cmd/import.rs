//! `entity-import`: saves the entities of a JSON file into a database.

use crate::cmd::{
    entities_from_json, entities_from_json_text, resolve_conn_path,
    resolved_conn_path, CommandError,
};
use crate::db::events::opt_view;
use crate::db::{entity_views, DbType};
use vstd::prelude::*;

verus! {

/// Imports entities from a JSON file into a SQLite or MDBX database.
pub struct DbImportCommand {
    /// The backend to write: `sqlite` unless given.
    pub db_type: DbType,
    /// The database to write; SQLite falls back to `entity.db`, MDBX needs it.
    pub conn_path: Option<String>,
    /// The JSON file to read: `entities.json` unless given.
    pub import_path: String,
}

impl DbImportCommand {
    /// The database the import writes, or the error for MDBX without a path.
    pub fn resolve_conn_path(&self) -> (path: Result<String, CommandError>)
        ensures
            match path {
                Ok(p) => resolved_conn_path(self.db_type, opt_view(self.conn_path)) == Some(p@),
                Err(e) => resolved_conn_path(self.db_type, opt_view(self.conn_path)) is None
                    && e == CommandError::MissingConnPath,
            },
            self.conn_path matches Some(given) ==> (path matches Ok(p) && p@ == given@),
            self.conn_path is None && self.db_type == DbType::Mdbx ==> (path matches Err(e) && e
                == CommandError::MissingConnPath),
    {
        resolve_conn_path(self.db_type, &self.conn_path)
    }

    /// The entities listed in the import file's contents `json`, in file
    /// order, or the error when it is not a JSON list of key/value pairs.
    pub fn parse_document(json: &str) -> (entities: Result<Vec<(String, String)>, CommandError>)
        ensures
            match entities {
                Ok(v) => entities_from_json(json@) == Some(entity_views(v@)),
                Err(e) => entities_from_json(json@) is None && e is Json,
            },
    {
        entities_from_json_text(json)
    }
}

} // verus!
