//! The `entity-export` and `entity-import` commands: which database they
//! open, and how the entity list is written to and read from JSON. Opening
//! databases and files is left to the program that runs the commands.

pub mod export;
pub mod import;

pub use export::DbExportCommand;
pub use import::DbImportCommand;

use crate::db::events::opt_view;
use crate::db::{entity_views, DbType};
use vstd::prelude::*;

verus! {

/// The entity commands of the node's command line.
pub enum EntityCommands {
    /// `entity-export`
    Export(DbExportCommand),
    /// `entity-import`
    Import(DbImportCommand),
}

/// Why an entity command failed before touching a database or a file.
#[derive(Debug, Clone, PartialEq, Eq)]
pub enum CommandError {
    /// The MDBX backend was chosen without `--conn-path`.
    MissingConnPath,
    /// The entity list could not be written as, or read from, JSON.
    Json(String),
}

/// The message for a missing `--conn-path` with the MDBX backend.
pub open spec fn missing_conn_path_message() -> Seq<char> {
    "--conn-path required for mdbx backend"@
}

/// The SQLite database used when no `--conn-path` is given.
pub open spec fn default_conn_path_spec() -> Seq<char> {
    seq!['e', 'n', 't', 'i', 't', 'y', '.', 'd', 'b']
}

/// The database a command opens: the given path, or for SQLite the default
/// one; `None` when MDBX is chosen without a path.
pub open spec fn resolved_conn_path(db_type: DbType, conn_path: Option<Seq<char>>) -> Option<Seq<char>> {
    match conn_path {
        Some(path) => Some(path),
        None => match db_type {
            DbType::Sqlite => Some(default_conn_path_spec()),
            DbType::Mdbx => None,
        },
    }
}

impl CommandError {
    /// The error's message.
    pub fn to_string(&self) -> (message: String)
        ensures
            *self == CommandError::MissingConnPath ==> message@ == missing_conn_path_message(),
            self matches CommandError::Json(m) ==> message@ == m@,
    {
        match self {
            CommandError::MissingConnPath => "--conn-path required for mdbx backend".to_owned(),
            CommandError::Json(m) => m.clone(),
        }
    }
}

/// A given path is always the one opened, whichever the backend; the
/// default applies to SQLite only when no path is given, and MDBX without a
/// path has none.
pub proof fn lemma_given_path_wins(db_type: DbType, given: Seq<char>)
    ensures
        resolved_conn_path(db_type, Some(given)) == Some(given),
        resolved_conn_path(DbType::Sqlite, None) == Some("entity.db"@),
        resolved_conn_path(DbType::Mdbx, None) is None,
{
    reveal_strlit("entity.db");
}

/// The SQLite database used when no `--conn-path` is given: `entity.db`.
pub fn default_conn_path() -> (path: String)
    ensures
        path@ == default_conn_path_spec(),
{
    proof {
        reveal_strlit("entity.db");
    }
    "entity.db".to_owned()
}

/// The database a command opens, or the error for MDBX without a path.
pub fn resolve_conn_path(db_type: DbType, conn_path: &Option<String>) -> (path: Result<String, CommandError>)
    ensures
        match path {
            Ok(p) => resolved_conn_path(db_type, opt_view(*conn_path)) == Some(p@),
            Err(e) => resolved_conn_path(db_type, opt_view(*conn_path)) is None
                && e == CommandError::MissingConnPath,
        },
        conn_path matches Some(given) ==> (path matches Ok(p) && p@ == given@),
        conn_path is None && db_type == DbType::Sqlite ==> (path matches Ok(p) && p@
            == "entity.db"@),
        conn_path is None && db_type == DbType::Mdbx ==> path == Err::<String, CommandError>(
            CommandError::MissingConnPath,
        ),
{
    proof {
        reveal_strlit("entity.db");
    }
    match conn_path {
        Some(p) => Ok(p.clone()),
        None => match db_type {
            DbType::Sqlite => Ok(default_conn_path()),
            DbType::Mdbx => Err(CommandError::MissingConnPath),
        },
    }
}

/// The JSON text that `serde_json` writes for a list of entities, each a
/// two-element array of key and value.
pub uninterp spec fn entities_json(entities: Seq<(Seq<char>, Seq<char>)>) -> Seq<char>;

/// What `serde_json` reads from a JSON text as a list of entities: `None`
/// when the text is not such a list.
pub uninterp spec fn entities_from_json(text: Seq<char>) -> Option<Seq<(Seq<char>, Seq<char>)>>;

#[verifier::external_type_specification]
#[verifier::external_body]
pub struct ExJsonError(serde_json::Error);

/// `serde_json::to_string` on a list of string pairs. Its documentation
/// says serialization fails only when a `Serialize` impl decides to fail or
/// a map has non-string keys; strings, pairs and vectors do neither. The
/// contract claims success, names the text, which depends on the entities
/// alone, and claims that `serde_json::from_str` reads the same list back
/// from it: strings are written escaped and read back unescaped, and a pair
/// is written as a two-element array, which is what a pair is read from.
#[verifier::external_body]
fn json_to_string(entities: &Vec<(String, String)>) -> (json: Result<String, serde_json::Error>)
    ensures
        json is Ok,
        json matches Ok(text) ==> text@ == entities_json(entity_views(entities@)),
        json matches Ok(text) ==> entities_from_json(text@) == Some(entity_views(entities@)),
{
    serde_json::to_string(entities)
}

/// `serde_json::from_str` into a list of string pairs. The contract names
/// what it reads, which depends on the text alone: the list on success,
/// `None` on failure.
#[verifier::external_body]
fn json_from_str(text: &str) -> (entities: Result<Vec<(String, String)>, serde_json::Error>)
    ensures
        entities is Ok <==> entities_from_json(text@) is Some,
        entities matches Ok(v) ==> entities_from_json(text@) == Some(entity_views(v@)),
{
    serde_json::from_str(text)
}

/// The message of a `serde_json` error, by its `Display`. Nothing is
/// claimed of the text.
#[verifier::external_body]
fn json_error_message(error: &serde_json::Error) -> (message: String) {
    error.to_string()
}

/// The JSON document that `entity-export` writes for `entities`; reading
/// it back gives the same entities in the same order.
pub fn entities_to_json(entities: &Vec<(String, String)>) -> (json: Result<String, CommandError>)
    ensures
        json matches Ok(text) && text@ == entities_json(entity_views(entities@)),
        json matches Ok(text) && entities_from_json(text@) == Some(entity_views(entities@)),
{
    match json_to_string(entities) {
        Ok(text) => Ok(text),
        Err(e) => Err(CommandError::Json(json_error_message(&e))),
    }
}

/// The entities that `entity-import` reads from the JSON document `text`.
pub fn entities_from_json_text(text: &str) -> (entities: Result<Vec<(String, String)>, CommandError>)
    ensures
        match entities {
            Ok(v) => entities_from_json(text@) == Some(entity_views(v@)),
            Err(e) => entities_from_json(text@) is None && e is Json,
        },
{
    match json_from_str(text) {
        Ok(v) => Ok(v),
        Err(e) => Err(CommandError::Json(json_error_message(&e))),
    }
}

} // verus!
