use renxin_core::database::{
    gameplay_schema, render_batch, render_table, schema_batch, Column, ColumnKind, Reference,
    Table,
};

fn table_names(conn: &rusqlite::Connection) -> Vec<String> {
    let mut stmt = conn
        .prepare("SELECT name FROM sqlite_master WHERE type='table' ORDER BY name")
        .unwrap();
    let tables: Vec<String> =
        stmt.query_map([], |row| row.get(0)).unwrap().map(|r| r.unwrap()).collect();
    tables
}

#[test]
fn test_initialize_database_creates_tables() {
    let dir = tempfile::tempdir().unwrap();
    let db_path = dir.path().join("test.db");
    {
        let conn = rusqlite::Connection::open(&db_path).unwrap();
        conn.execute_batch(&schema_batch()).unwrap();
    }
    let conn = rusqlite::Connection::open(&db_path).unwrap();
    let tables = table_names(&conn);
    let expected_tables = vec![
        "cricket_marks",
        "cricket_scores",
        "game_participants",
        "games",
        "players",
        "rounds",
        "throws",
        "zero_one_round_states",
    ];
    assert_eq!(tables, expected_tables, "All expected tables should be created.");
}

#[test]
fn second_run_changes_nothing() {
    let conn = rusqlite::Connection::open_in_memory().unwrap();
    conn.execute_batch(&schema_batch()).unwrap();
    let first = table_names(&conn);
    conn.execute("INSERT INTO players (id, name) VALUES ('p1', 'Ann')", []).unwrap();
    conn.execute_batch(&schema_batch()).unwrap();
    assert_eq!(table_names(&conn), first);
    let players: i64 = conn.query_row("SELECT COUNT(*) FROM players", [], |row| row.get(0)).unwrap();
    assert_eq!(players, 1);
}

#[test]
fn tables_are_created_in_containment_order() {
    let names: Vec<String> = gameplay_schema().into_iter().map(|table| table.name).collect();
    assert_eq!(
        names,
        vec![
            "players",
            "games",
            "game_participants",
            "rounds",
            "throws",
            "zero_one_round_states",
            "cricket_marks",
            "cricket_scores",
        ]
    );
}

#[test]
fn every_table_has_a_textual_primary_key() {
    let conn = rusqlite::Connection::open_in_memory().unwrap();
    conn.execute_batch(&schema_batch()).unwrap();
    for table in gameplay_schema() {
        let mut stmt = conn
            .prepare(&format!("SELECT name, type, pk FROM pragma_table_info('{}')", table.name))
            .unwrap();
        let columns: Vec<(String, String, i64)> = stmt
            .query_map([], |row| Ok((row.get(0)?, row.get(1)?, row.get(2)?)))
            .unwrap()
            .map(|r| r.unwrap())
            .collect();
        assert_eq!(columns[0], ("id".to_string(), "TEXT".to_string(), 1));
        let names: Vec<String> = columns.into_iter().map(|column| column.0).collect();
        let declared: Vec<String> = table.columns.into_iter().map(|column| column.name).collect();
        assert_eq!(names, declared);
    }
}

#[test]
fn foreign_keys_follow_the_containment() {
    let conn = rusqlite::Connection::open_in_memory().unwrap();
    conn.execute_batch(&schema_batch()).unwrap();
    let mut stmt = conn
        .prepare("SELECT \"from\", \"table\", \"to\" FROM pragma_foreign_key_list('throws') ORDER BY \"from\"")
        .unwrap();
    let keys: Vec<(String, String, String)> = stmt
        .query_map([], |row| Ok((row.get(0)?, row.get(1)?, row.get(2)?)))
        .unwrap()
        .map(|r| r.unwrap())
        .collect();
    assert_eq!(
        keys,
        vec![
            ("participant_id".to_string(), "game_participants".to_string(), "id".to_string()),
            ("round_id".to_string(), "rounds".to_string(), "id".to_string()),
        ]
    );
}

#[test]
fn statement_of_one_table() {
    let players = &gameplay_schema()[0];
    assert_eq!(
        render_table(players),
        "CREATE TABLE IF NOT EXISTS players (id TEXT PRIMARY KEY, name TEXT NOT NULL, \
         created_at TIMESTAMP NOT NULL DEFAULT CURRENT_TIMESTAMP);\n"
    );
    let rounds = &gameplay_schema()[3];
    assert_eq!(
        render_table(rounds),
        "CREATE TABLE IF NOT EXISTS rounds (id TEXT PRIMARY KEY, game_id TEXT NOT NULL, \
         round_number INTEGER NOT NULL, FOREIGN KEY (game_id) REFERENCES games(id));\n"
    );
}

#[test]
fn statement_of_a_table_without_columns() {
    let bare = Table { name: "t".to_string(), columns: vec![], references: vec![] };
    assert_eq!(render_table(&bare), "CREATE TABLE IF NOT EXISTS t ();\n");
    let only_key = Table {
        name: "t".to_string(),
        columns: vec![],
        references: vec![Reference { column: "a".to_string(), table: "b".to_string() }],
    };
    assert_eq!(
        render_table(&only_key),
        "CREATE TABLE IF NOT EXISTS t (FOREIGN KEY (a) REFERENCES b(id));\n"
    );
    let optional = Table {
        name: "t".to_string(),
        columns: vec![Column {
            name: "n".to_string(),
            kind: ColumnKind::Integer,
            primary_key: false,
            required: false,
            stamped: false,
        }],
        references: vec![],
    };
    assert_eq!(render_table(&optional), "CREATE TABLE IF NOT EXISTS t (n INTEGER);\n");
    assert_eq!(render_batch(&vec![]), "");
    assert_eq!(
        render_batch(&vec![bare, optional]),
        "CREATE TABLE IF NOT EXISTS t ();\nCREATE TABLE IF NOT EXISTS t (n INTEGER);\n"
    );
}

#[test]
fn batch_is_the_statements_in_order() {
    let tables = gameplay_schema();
    let statements: Vec<String> = tables.iter().map(render_table).collect();
    assert_eq!(schema_batch(), statements.concat());
    assert_eq!(schema_batch().matches("CREATE TABLE IF NOT EXISTS ").count(), 8);
}
