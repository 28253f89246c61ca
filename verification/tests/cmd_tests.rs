use reth_custom_db::cmd::{
    default_conn_path, resolve_conn_path, CommandError, DbExportCommand, DbImportCommand,
    EntityCommands,
};
use reth_custom_db::db::DbType;

#[test]
fn test_export_mdbx_missing_conn_path() {
    let cmd = DbExportCommand {
        db_type: DbType::Mdbx,
        conn_path: None,
        export_path: "x.json".into(),
    };
    let err = cmd.resolve_conn_path().unwrap_err();
    assert!(err.to_string().contains("--conn-path required"));
}

#[test]
fn missing_conn_path_error_message() {
    assert_eq!(
        CommandError::MissingConnPath.to_string(),
        "--conn-path required for mdbx backend"
    );
    assert_eq!(CommandError::Json("bad".to_string()).to_string(), "bad");
}

#[test]
fn sqlite_falls_back_to_default_database() {
    assert_eq!(default_conn_path(), "entity.db");
    let cmd = DbExportCommand {
        db_type: DbType::Sqlite,
        conn_path: None,
        export_path: "entities.json".to_string(),
    };
    assert_eq!(cmd.resolve_conn_path(), Ok("entity.db".to_string()));
}

#[test]
fn given_conn_path_is_used_by_both_backends() {
    for db_type in [DbType::Sqlite, DbType::Mdbx] {
        let cmd = DbImportCommand {
            db_type,
            conn_path: Some("/data/db".to_string()),
            import_path: "entities.json".to_string(),
        };
        assert_eq!(cmd.resolve_conn_path(), Ok("/data/db".to_string()));
        assert_eq!(
            resolve_conn_path(db_type, &Some("other.db".to_string())),
            Ok("other.db".to_string())
        );
    }
}

#[test]
fn import_with_mdbx_needs_conn_path() {
    let cmd = DbImportCommand {
        db_type: DbType::Mdbx,
        conn_path: None,
        import_path: "entities.json".to_string(),
    };
    assert_eq!(cmd.resolve_conn_path(), Err(CommandError::MissingConnPath));
}

#[test]
fn export_document_is_a_json_list_of_pairs() {
    let entities = vec![
        ("key1".to_string(), "val1".to_string()),
        ("key2".to_string(), "val2".to_string()),
    ];
    let json = DbExportCommand::export_document(&entities).unwrap();
    assert_eq!(json, r#"[["key1","val1"],["key2","val2"]]"#);
    assert_eq!(DbExportCommand::export_document(&Vec::new()).unwrap(), "[]");
}

#[test]
fn export_document_escapes_strings() {
    let entities = vec![("a\"b".to_string(), "line\nnext".to_string())];
    let json = DbExportCommand::export_document(&entities).unwrap();
    assert_eq!(json, r#"[["a\"b","line\nnext"]]"#);
}

#[test]
fn import_document_reads_pairs_in_order() {
    let entities = DbImportCommand::parse_document(r#"[["a","1"],["b","2"]]"#).unwrap();
    assert_eq!(
        entities,
        vec![
            ("a".to_string(), "1".to_string()),
            ("b".to_string(), "2".to_string())
        ]
    );
    assert_eq!(DbImportCommand::parse_document("[]").unwrap(), Vec::new());
}

#[test]
fn import_document_rejects_other_json() {
    for text in ["", "{}", r#"[["a"]]"#, r#"[["a","1","2"]]"#, r#"[[1,2]]"#, "not json"] {
        match DbImportCommand::parse_document(text) {
            Err(CommandError::Json(message)) => assert!(!message.is_empty()),
            other => panic!("unexpected result for {text:?}: {other:?}"),
        }
    }
}

#[test]
fn export_then_import_gives_the_entities_back() {
    let entities = vec![
        ("x".to_string(), "10".to_string()),
        ("y".to_string(), "20".to_string()),
        ("ключ".to_string(), "значение \u{1F600}".to_string()),
    ];
    let json = DbExportCommand::export_document(&entities).unwrap();
    assert_eq!(DbImportCommand::parse_document(&json).unwrap(), entities);
}

#[test]
fn entity_commands_hold_their_command() {
    let cmd = EntityCommands::Export(DbExportCommand {
        db_type: DbType::Sqlite,
        conn_path: None,
        export_path: "out.json".to_string(),
    });
    match cmd {
        EntityCommands::Export(c) => assert_eq!(c.export_path, "out.json"),
        EntityCommands::Import(_) => panic!("wrong command"),
    }
}
