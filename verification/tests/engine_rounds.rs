use dbsecrets::connection;
use dbsecrets::connection::PostgresConnectionConfig;
use dbsecrets::engine::MemoryEngine;
use dbsecrets::error::ClientError;
use dbsecrets::role;
use dbsecrets::role::RoleConfig;
use dbsecrets::static_role;
use dbsecrets::static_role::StaticRoleConfig;
use dbsecrets::wire::decode_empty;
use dbsecrets::wire::decode_list;

#[test]
fn list_on_empty_mount_returns_empty_collection() {
    let mut engine = MemoryEngine::new();
    let d = connection::list("database").unwrap();
    let w = engine.handle(&d);
    let resp = decode_list(&w).unwrap();
    assert!(resp.keys.is_empty());
}

#[test]
fn read_missing_connection_is_not_found() {
    let mut engine = MemoryEngine::new();
    let d = connection::read("database", "absent").unwrap();
    let w = engine.handle(&d);
    let e = connection::decode_read(&w).unwrap_err();
    assert!(e.not_found());
    assert!(matches!(e, ClientError::Status { code: 404, .. }));
    assert!(!matches!(e, ClientError::Transport { .. }));
}

#[test]
fn set_then_read_returns_what_was_set() {
    let mut engine = MemoryEngine::new();
    let cfg = PostgresConnectionConfig {
        plugin_name: Some("postgresql-database-plugin".to_string()),
        connection_url: Some("postgres://postgres@localhost/postgres".to_string()),
        username: Some("postgres".to_string()),
        password: None,
        verify_connection: Some(false),
        allowed_roles: Some(vec!["my-role".to_string(), "other".to_string()]),
        root_rotation_statements: None,
    };
    let d = connection::postgres("database", "my-postgresql-db", Some(&cfg)).unwrap();
    let w = engine.handle(&d);
    decode_empty(&w).unwrap();

    let d = connection::read("database", "my-postgresql-db").unwrap();
    let w = engine.handle(&d);
    let rec = connection::decode_read(&w).unwrap();
    assert_eq!(rec.plugin_name.as_deref(), Some("postgresql-database-plugin"));
    assert_eq!(
        rec.connection_url.as_deref(),
        Some("postgres://postgres@localhost/postgres")
    );
    assert_eq!(rec.username.as_deref(), Some("postgres"));
    assert_eq!(rec.password, None);
    assert_eq!(rec.verify_connection, Some(false));
    assert_eq!(
        rec.allowed_roles,
        Some(vec!["my-role".to_string(), "other".to_string()])
    );
    assert_eq!(rec.root_rotation_statements, None);
}

#[test]
fn role_set_then_read_round_trip() {
    let mut engine = MemoryEngine::new();
    let cfg = RoleConfig {
        db_name: Some("my-postgresql-db".to_string()),
        creation_statements: Some(vec!["CREATE ROLE \"{{name}}\";".to_string()]),
        revocation_statements: Some(vec!["DROP ROLE \"{{name}}\";".to_string()]),
        default_ttl: Some(3600),
        max_ttl: Some(86400),
    };
    let d = role::set("database", "my-role", Some(&cfg)).unwrap();
    let w = engine.handle(&d);
    decode_empty(&w).unwrap();

    let d = role::read("database", "my-role").unwrap();
    let w = engine.handle(&d);
    let rec = role::decode_read(&w).unwrap();
    assert_eq!(rec.db_name.as_deref(), Some("my-postgresql-db"));
    assert_eq!(
        rec.creation_statements,
        Some(vec!["CREATE ROLE \"{{name}}\";".to_string()])
    );
    assert_eq!(
        rec.revocation_statements,
        Some(vec!["DROP ROLE \"{{name}}\";".to_string()])
    );
    assert_eq!(rec.default_ttl, Some(3600));
    assert_eq!(rec.max_ttl, Some(86400));
}

#[test]
fn static_role_set_then_read_round_trip() {
    let mut engine = MemoryEngine::new();
    let cfg = StaticRoleConfig {
        db_name: Some("my-postgresql-db".to_string()),
        username: Some("app-user".to_string()),
        rotation_period: Some(86400),
    };
    let d = static_role::set("database", "my-static", Some(&cfg)).unwrap();
    let w = engine.handle(&d);
    decode_empty(&w).unwrap();

    let d = static_role::read("database", "my-static").unwrap();
    let w = engine.handle(&d);
    let rec = static_role::decode_read(&w).unwrap();
    assert_eq!(rec.db_name.as_deref(), Some("my-postgresql-db"));
    assert_eq!(rec.username.as_deref(), Some("app-user"));
    assert_eq!(rec.rotation_period, Some(86400));
}

#[test]
fn role_creds_generates_distinct_records() {
    let mut engine = MemoryEngine::new();
    let d = role::set("database", "my-role", None).unwrap();
    let w = engine.handle(&d);
    decode_empty(&w).unwrap();

    let d = role::creds("database", "my-role").unwrap();
    let w = engine.handle(&d);
    let first = role::decode_creds(&w).unwrap();
    let w = engine.handle(&d);
    let second = role::decode_creds(&w).unwrap();
    assert_eq!(first.username.as_str(), "my-role");
    assert_eq!(second.username.as_str(), "my-role");
    assert_ne!(first.password, second.password);
    assert_ne!(first, second);
}

#[test]
fn static_creds_stable_until_rotation() {
    let mut engine = MemoryEngine::new();
    let cfg = StaticRoleConfig {
        db_name: Some("my-postgresql-db".to_string()),
        username: Some("app-user".to_string()),
        rotation_period: Some(86400),
    };
    let d = static_role::set("database", "my-static", Some(&cfg)).unwrap();
    let w = engine.handle(&d);
    decode_empty(&w).unwrap();

    let creds_req = static_role::creds("database", "my-static").unwrap();
    let w = engine.handle(&creds_req);
    let first = static_role::decode_creds(&w).unwrap();
    let w = engine.handle(&creds_req);
    let second = static_role::decode_creds(&w).unwrap();
    assert_eq!(first, second);
    assert_eq!(first.username.as_str(), "app-user");

    let d = static_role::rotate("database", "my-static").unwrap();
    let w = engine.handle(&d);
    decode_empty(&w).unwrap();
    let w = engine.handle(&creds_req);
    let third = static_role::decode_creds(&w).unwrap();
    assert_eq!(third.username.as_str(), "app-user");
    assert_ne!(third.password, first.password);
}

#[test]
fn rotate_missing_static_role_is_not_found() {
    let mut engine = MemoryEngine::new();
    let d = static_role::rotate("database", "no-such-static").unwrap();
    let w = engine.handle(&d);
    assert!(decode_empty(&w).unwrap_err().not_found());
}

#[test]
fn delete_static_role_also_drops_its_credentials() {
    let mut engine = MemoryEngine::new();
    let d = static_role::set("database", "my-static", None).unwrap();
    let w = engine.handle(&d);
    decode_empty(&w).unwrap();

    let d = static_role::delete("database", "my-static").unwrap();
    let w = engine.handle(&d);
    decode_empty(&w).unwrap();

    let d = static_role::creds("database", "my-static").unwrap();
    let w = engine.handle(&d);
    assert!(static_role::decode_creds(&w).unwrap_err().not_found());
}

#[test]
fn creds_on_missing_role_is_not_found() {
    let mut engine = MemoryEngine::new();
    let d = role::creds("database", "no-such-role").unwrap();
    let w = engine.handle(&d);
    let e = role::decode_creds(&w).unwrap_err();
    assert!(e.not_found());
}

#[test]
fn delete_then_read_is_not_found() {
    let mut engine = MemoryEngine::new();
    let d = connection::postgres("database", "pg", None).unwrap();
    let w = engine.handle(&d);
    decode_empty(&w).unwrap();

    let d = connection::delete("database", "pg").unwrap();
    let w = engine.handle(&d);
    decode_empty(&w).unwrap();

    let d = connection::read("database", "pg").unwrap();
    let w = engine.handle(&d);
    let e = connection::decode_read(&w).unwrap_err();
    assert!(e.not_found());
}

#[test]
fn reset_and_rotate_follow_presence() {
    let mut engine = MemoryEngine::new();
    let d = connection::postgres("database", "pg", None).unwrap();
    let w = engine.handle(&d);
    decode_empty(&w).unwrap();

    let d = connection::reset("database", "pg").unwrap();
    let w = engine.handle(&d);
    decode_empty(&w).unwrap();
    let d = connection::rotate("database", "pg").unwrap();
    let w = engine.handle(&d);
    decode_empty(&w).unwrap();

    let d = connection::reset("database", "absent").unwrap();
    let w = engine.handle(&d);
    assert!(decode_empty(&w).unwrap_err().not_found());
    let d = connection::rotate("database", "absent").unwrap();
    let w = engine.handle(&d);
    assert!(decode_empty(&w).unwrap_err().not_found());
}

#[test]
fn list_returns_stored_names_in_order() {
    let mut engine = MemoryEngine::new();
    for name in ["alpha", "beta"] {
        let d = connection::postgres("database", name, None).unwrap();
        let w = engine.handle(&d);
        decode_empty(&w).unwrap();
    }
    let d = connection::list("database").unwrap();
    let w = engine.handle(&d);
    let resp = decode_list(&w).unwrap();
    assert_eq!(resp.keys, vec!["alpha".to_string(), "beta".to_string()]);

    let d = role::list("database").unwrap();
    let w = engine.handle(&d);
    let resp = decode_list(&w).unwrap();
    assert!(resp.keys.is_empty());
}
