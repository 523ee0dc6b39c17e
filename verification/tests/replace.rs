use databend_meta::replace::ReplaceStmt;

#[test]
fn replace_with_qualified_table_and_columns() {
    let stmt = ReplaceStmt {
        catalog: Some("default".to_string()),
        database: Some("db".to_string()),
        table: "t".to_string(),
        on: "id".to_string(),
        columns: vec!["id".to_string(), "name".to_string()],
        source: "VALUES (1, 'a')".to_string(),
    };
    assert_eq!(stmt.to_display_string(), "REPLACE INTO default.db.tON ( id ) (id, name) VALUES (1, 'a')");
}

#[test]
fn replace_without_columns_or_qualifiers() {
    let stmt = ReplaceStmt {
        catalog: None,
        database: None,
        table: "t".to_string(),
        on: "k".to_string(),
        columns: vec![],
        source: "SELECT * FROM s".to_string(),
    };
    assert_eq!(stmt.to_display_string(), "REPLACE INTO tON ( k ) SELECT * FROM s");
}

#[test]
fn replace_with_database_only() {
    let stmt = ReplaceStmt {
        catalog: None,
        database: Some("db".to_string()),
        table: "t".to_string(),
        on: "k".to_string(),
        columns: vec!["a".to_string()],
        source: "VALUES".to_string(),
    };
    assert_eq!(stmt.to_display_string(), "REPLACE INTO db.tON ( k ) (a) VALUES");
}
