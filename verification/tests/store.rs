use shecret::{
    accept_address, create_database, create_server_connection, delete_records_by_alias,
    get_connections, purge_database, TABLE,
};

#[test]
fn table_name() {
    assert_eq!(TABLE, "server_connections");
}

#[test]
fn create_database_statement() {
    let statement = create_database();
    assert_eq!(
        statement.sql,
        "CREATE TABLE IF NOT EXISTS server_connections (
                  id              INTEGER PRIMARY KEY,
                  user           VARCHAR(255) NOT NULL,
                  ip          VARCHAR(255) NOT NULL,
                  key_path      VARCHAR(255) NOT NULL,
                  port      VARCHAR(4) NOT NULL,
                  alias      VARCHAR(255) NOT NULL
                  )"
    );
    assert!(statement.params.is_empty());
}

#[test]
fn create_database_statement_runs() {
    let conn = rusqlite::Connection::open_in_memory().unwrap();
    let statement = create_database();
    conn.execute(&statement.sql, rusqlite::params_from_iter(statement.params.iter())).unwrap();
    conn.execute(&statement.sql, rusqlite::params_from_iter(statement.params.iter())).unwrap();
}

#[test]
fn delete_records_by_alias_statement() {
    let statement = delete_records_by_alias("web");
    assert_eq!(statement.sql, "DELETE FROM server_connections WHERE alias = ?1");
    assert_eq!(statement.params, vec!["web"]);
}

#[test]
fn purge_database_only_when_confirmed() {
    assert!(purge_database(false).is_none());
    let statement = purge_database(true).unwrap();
    assert_eq!(statement.sql, "DELETE FROM server_connections");
    assert!(statement.params.is_empty());
}

#[test]
fn get_connections_statement() {
    let statement = get_connections();
    assert_eq!(statement.sql, "SELECT * FROM server_connections");
    assert!(statement.params.is_empty());
}

#[test]
fn create_server_connection_builds_record_statement_and_notice() {
    let creation = create_server_connection(
        "root".to_string(),
        accept_address("10.0.0.1".to_string(), true).unwrap(),
        "/keys/a".to_string(),
        "22".to_string(),
        "web".to_string(),
    );
    assert_eq!(creation.record.id, 0);
    assert_eq!(creation.record.user, "root");
    assert_eq!(creation.record.ip, "10.0.0.1");
    assert_eq!(creation.record.key_path, "/keys/a");
    assert_eq!(creation.record.port, "22");
    assert_eq!(creation.record.alias, "web");
    assert_eq!(
        creation.statement.sql,
        "INSERT INTO server_connections (user, ip, key_path, port, alias) VALUES (?1, ?2, ?3, ?4, ?5)"
    );
    assert_eq!(creation.statement.params, vec!["root", "10.0.0.1", "/keys/a", "22", "web"]);
    assert_eq!(creation.notice.kind, "OK");
    assert_eq!(creation.notice.text, "Server Connection created: web");
    assert_eq!(creation.notice.color, "green");
}

#[test]
fn accept_address_refuses_with_a_notice() {
    for text in ["10.0.0", "300.1.1.1", "example.org", ""] {
        let notice = accept_address(text.to_string(), false).unwrap_err();
        assert_eq!(notice.kind, "ERROR");
        assert_eq!(notice.text, format!("Invalid IP: {}", text));
        assert_eq!(notice.color, "red");
    }
}

#[test]
fn accept_address_keeps_a_valid_address() {
    assert_eq!(accept_address("10.0.0.1".to_string(), true).unwrap().as_str(), "10.0.0.1");
    assert_eq!(accept_address("::1".to_string(), true).unwrap().as_str(), "::1");
}

#[test]
fn a_refused_address_leaves_the_table_as_it_was() {
    let conn = rusqlite::Connection::open_in_memory().unwrap();
    let statement = create_database();
    conn.execute(&statement.sql, rusqlite::params_from_iter(statement.params.iter())).unwrap();
    match accept_address("300.1.1.1".to_string(), false) {
        Ok(_) => panic!("the address was accepted"),
        Err(refusal) => assert_eq!(refusal.text, "Invalid IP: 300.1.1.1"),
    }
    let rows: i64 =
        conn.query_row("SELECT COUNT(*) FROM server_connections", [], |row| row.get(0)).unwrap();
    assert_eq!(rows, 0);
}

#[test]
fn statements_round_trip_through_a_database() {
    let conn = rusqlite::Connection::open_in_memory().unwrap();
    let run = |statement: shecret::Statement| {
        conn.execute(&statement.sql, rusqlite::params_from_iter(statement.params.iter())).unwrap()
    };
    run(create_database());
    for alias in ["web", "db", "web"] {
        let creation = create_server_connection(
            "root".to_string(),
            accept_address("10.0.0.1".to_string(), true).unwrap(),
            "/keys/a".to_string(),
            "22".to_string(),
            alias.to_string(),
        );
        assert_eq!(run(creation.statement), 1);
    }
    let count = |conn: &rusqlite::Connection| -> Vec<(u8, String)> {
        let query = get_connections();
        let mut prepared = conn.prepare(&query.sql).unwrap();
        let rows = prepared
            .query_map([], |row| Ok((row.get::<_, u8>(0)?, row.get::<_, String>(5)?)))
            .unwrap();
        rows.map(|row| row.unwrap()).collect()
    };
    assert_eq!(
        count(&conn),
        vec![(1, "web".to_string()), (2, "db".to_string()), (3, "web".to_string())]
    );
    assert_eq!(run(delete_records_by_alias("web")), 2);
    assert_eq!(count(&conn), vec![(2, "db".to_string())]);
    assert_eq!(run(purge_database(true).unwrap()), 1);
    assert!(count(&conn).is_empty());
}
