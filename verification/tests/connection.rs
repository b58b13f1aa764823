use vizql_app::config::ConnectionConfig;
use vizql_app::error::DbError;
use vizql_app::pool::{connect_db_pool, install, PoolHolder};

fn connected(dbname: &str) -> PoolHolder {
    let mut holder = PoolHolder::new();
    let outcome = connect_db_pool(&mut holder, dbname, "alice", "secret", "db.example", "5433");
    assert_eq!(outcome, Ok(()));
    holder
}

fn settings_of(holder: &PoolHolder) -> String {
    format!("{:?}", holder.get().expect("a pool").pool.manager())
}

#[test]
fn port_is_read_from_decimal_digits() {
    assert_eq!(ConnectionConfig::parse_port("5432"), Ok(5432));
    assert_eq!(ConnectionConfig::parse_port("0"), Ok(0));
    assert_eq!(ConnectionConfig::parse_port("65535"), Ok(65535));
    assert_eq!(ConnectionConfig::parse_port("+80"), Ok(80));
    assert_eq!(ConnectionConfig::parse_port("0000080"), Ok(80));
}

#[test]
fn port_rejects_what_writes_no_port() {
    for text in ["", "+", "-", "-1", "65536", "99999999999999999999", " 80", "80 ", "8_0", "0x50",
        "abc", "++1", "8.0", "\u{0663}"]
    {
        assert!(
            matches!(ConnectionConfig::parse_port(text), Err(DbError::Configuration(_))),
            "{:?}",
            text
        );
    }
}

#[test]
fn port_error_carries_the_parser_description() {
    for text in ["", "abc", "65536"] {
        let expected = text.parse::<u16>().unwrap_err().to_string();
        assert_eq!(ConnectionConfig::parse_port(text), Err(DbError::Configuration(expected)));
    }
}

#[test]
fn configuration_copies_the_fields() {
    let config = ConnectionConfig::from_fields("inventory", "alice", "secret", "db.example", "5433");
    assert_eq!(
        config,
        Ok(ConnectionConfig {
            dbname: "inventory".to_string(),
            user: "alice".to_string(),
            password: "secret".to_string(),
            host: "db.example".to_string(),
            port: 5433,
        })
    );
}

#[test]
fn configuration_rejects_a_bad_port() {
    let config = ConnectionConfig::from_fields("inventory", "alice", "secret", "db.example", "http");
    assert!(matches!(config, Err(DbError::Configuration(_))));
}

#[test]
fn new_holder_is_empty() {
    let holder = PoolHolder::new();
    assert!(!holder.is_initialized());
    assert!(holder.get().is_none());
}

#[test]
fn connect_stores_a_pool_for_the_given_settings() {
    let holder = connected("inventory");
    assert!(holder.is_initialized());
    let settings = settings_of(&holder);
    assert!(settings.contains("dbname: Some(\"inventory\")"), "{}", settings);
    assert!(settings.contains("user: Some(\"alice\")"), "{}", settings);
    assert!(settings.contains("Tcp(\"db.example\")"), "{}", settings);
    assert!(settings.contains("port: [5433]"), "{}", settings);
}

#[test]
fn connect_with_an_empty_user_stores_a_pool_for_the_other_settings() {
    let mut holder = PoolHolder::new();
    let outcome = connect_db_pool(&mut holder, "inventory", "", "secret", "db.example", "5433");
    assert_eq!(outcome, Ok(()));
    assert!(holder.is_initialized());
    let settings = settings_of(&holder);
    assert!(settings.contains("dbname: Some(\"inventory\")"), "{}", settings);
    assert!(settings.contains("password: Some(_)"), "{}", settings);
    assert!(settings.contains("Tcp(\"db.example\")"), "{}", settings);
    assert!(settings.contains("port: [5433]"), "{}", settings);
}

#[test]
fn connect_opens_no_connection() {
    let holder = connected("inventory");
    let status = holder.get().expect("a pool").pool.status();
    assert_eq!(status.size, 0);
}

#[test]
fn connect_with_non_numeric_port_is_a_configuration_error() {
    let mut holder = PoolHolder::new();
    let outcome = connect_db_pool(&mut holder, "inventory", "alice", "secret", "db.example", "five");
    let expected = "five".parse::<u16>().unwrap_err().to_string();
    assert_eq!(outcome, Err(DbError::Configuration(expected)));
    assert!(!holder.is_initialized());
}

#[test]
fn connect_with_empty_database_name_is_a_connection_error() {
    let mut holder = PoolHolder::new();
    let outcome = connect_db_pool(&mut holder, "", "alice", "secret", "db.example", "5433");
    match outcome {
        Err(DbError::Connection(text)) => assert!(text.contains("dbname"), "{}", text),
        other => panic!("{:?}", other),
    }
    assert!(!holder.is_initialized());
}

#[test]
fn second_connect_fails_and_keeps_the_first_pool() {
    let mut holder = connected("first");
    let before = settings_of(&holder);
    let outcome = connect_db_pool(&mut holder, "second", "bob", "other", "elsewhere", "6000");
    assert_eq!(outcome, Err(DbError::AlreadyInitialized));
    assert!(holder.is_initialized());
    let after = settings_of(&holder);
    assert_eq!(before, after);
    assert!(after.contains("dbname: Some(\"first\")"), "{}", after);
}

#[test]
fn second_connect_with_bad_port_is_still_a_configuration_error() {
    let mut holder = connected("first");
    let outcome = connect_db_pool(&mut holder, "second", "bob", "other", "elsewhere", "");
    assert!(matches!(outcome, Err(DbError::Configuration(_))));
    assert!(settings_of(&holder).contains("dbname: Some(\"first\")"));
}

#[test]
fn second_connect_with_empty_database_name_is_still_a_connection_error() {
    let mut holder = connected("first");
    let outcome = connect_db_pool(&mut holder, "", "bob", "other", "elsewhere", "6000");
    assert!(matches!(outcome, Err(DbError::Connection(_))));
    assert!(settings_of(&holder).contains("dbname: Some(\"first\")"));
}

#[test]
fn install_passes_a_creation_failure_on() {
    let mut holder = PoolHolder::new();
    let outcome = install(&mut holder, Err("no route to host".to_string()));
    assert_eq!(outcome, Err(DbError::Connection("no route to host".to_string())));
    assert!(!holder.is_initialized());
}

#[test]
fn install_refuses_a_pool_when_one_is_stored() {
    let mut first = connected("first");
    let mut second = connected("second");
    let arriving = second.get().expect("a pool").pool.clone();
    let outcome = install(&mut first, Ok(vizql_app::pool::PoolHandle { pool: arriving }));
    assert_eq!(outcome, Err(DbError::AlreadyInitialized));
    assert!(settings_of(&first).contains("dbname: Some(\"first\")"));
    let failure = install(&mut second, Err("late failure".to_string()));
    assert_eq!(failure, Err(DbError::Connection("late failure".to_string())));
    assert!(settings_of(&second).contains("dbname: Some(\"second\")"));
}

#[test]
fn set_hands_a_second_pool_back() {
    let mut first = connected("first");
    let second = connected("second");
    let arriving = vizql_app::pool::PoolHandle { pool: second.get().expect("a pool").pool.clone() };
    match first.set(arriving) {
        Err(back) => {
            assert!(format!("{:?}", back.pool.manager()).contains("dbname: Some(\"second\")"))
        }
        Ok(()) => panic!("a full holder took a second pool"),
    }
    assert!(settings_of(&first).contains("dbname: Some(\"first\")"));
}

#[test]
fn errors_are_reported_as_plain_text() {
    assert_eq!(DbError::NotInitialized.message(), "Database pool not initialized");
    assert_eq!(DbError::AlreadyInitialized.message(), "DB_POOL already set");
    assert_eq!(DbError::Configuration("bad port".to_string()).message(), "bad port");
    assert_eq!(DbError::Connection("no client".to_string()).message(), "no client");
    assert_eq!(DbError::Execution("no table".to_string()).message(), "no table");
}
