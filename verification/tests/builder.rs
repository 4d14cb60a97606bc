use dbsecrets::connection;
use dbsecrets::connection::PostgresConnectionConfig;
use dbsecrets::error::ClientError;
use dbsecrets::request::Method;
use dbsecrets::role;
use dbsecrets::role::RoleConfig;
use dbsecrets::static_role;
use dbsecrets::static_role::StaticRoleConfig;
use dbsecrets::value::Value;

fn build_field(e: ClientError) -> String {
    match e {
        ClientError::Build { field } => field,
        other => panic!("expected a build error, got {:?}", other),
    }
}

#[test]
fn postgres_default_sets_mount_and_name() {
    let d = connection::postgres("database", "pg", None).unwrap();
    assert_eq!(d.mount.as_str(), "database");
    assert_eq!(d.name.as_deref(), Some("pg"));
    assert_eq!(d.path.as_str(), "database/config/pg");
    assert_eq!(d.method, Method::Post);
    assert!(d.body.is_empty());
}

#[test]
fn builder_rejects_empty_mount() {
    assert_eq!(build_field(connection::postgres("", "pg", None).unwrap_err()), "mount");
    assert_eq!(build_field(connection::read("", "pg").unwrap_err()), "mount");
    assert_eq!(build_field(connection::list("").unwrap_err()), "mount");
    assert_eq!(build_field(role::set("", "r", None).unwrap_err()), "mount");
    assert_eq!(build_field(role::creds("", "r").unwrap_err()), "mount");
    assert_eq!(build_field(static_role::rotate("", "r").unwrap_err()), "mount");
}

#[test]
fn builder_rejects_empty_name() {
    assert_eq!(build_field(connection::postgres("database", "", None).unwrap_err()), "name");
    assert_eq!(build_field(connection::delete("database", "").unwrap_err()), "name");
    assert_eq!(build_field(role::read("database", "").unwrap_err()), "name");
    assert_eq!(build_field(static_role::creds("database", "").unwrap_err()), "name");
    assert_eq!(build_field(connection::reset("database", "").unwrap_err()), "name");
}

#[test]
fn connection_paths_and_methods() {
    let d = connection::delete("m", "c").unwrap();
    assert_eq!((d.path.as_str(), d.method), ("m/config/c", Method::Delete));
    let d = connection::list("m").unwrap();
    assert_eq!((d.path.as_str(), d.method), ("m/config", Method::List));
    assert_eq!(d.name, None);
    let d = connection::read("m", "c").unwrap();
    assert_eq!((d.path.as_str(), d.method), ("m/config/c", Method::Get));
    let d = connection::reset("m", "c").unwrap();
    assert_eq!((d.path.as_str(), d.method), ("m/reset/c", Method::Post));
    let d = connection::rotate("m", "c").unwrap();
    assert_eq!((d.path.as_str(), d.method), ("m/rotate-root/c", Method::Post));
}

#[test]
fn role_paths_and_methods() {
    let d = role::set("m", "r", None).unwrap();
    assert_eq!((d.path.as_str(), d.method), ("m/roles/r", Method::Post));
    let d = role::delete("m", "r").unwrap();
    assert_eq!((d.path.as_str(), d.method), ("m/roles/r", Method::Delete));
    let d = role::list("m").unwrap();
    assert_eq!((d.path.as_str(), d.method), ("m/roles", Method::List));
    let d = role::read("m", "r").unwrap();
    assert_eq!((d.path.as_str(), d.method), ("m/roles/r", Method::Get));
    let d = role::creds("m", "r").unwrap();
    assert_eq!((d.path.as_str(), d.method), ("m/creds/r", Method::Get));
}

#[test]
fn static_role_paths_and_methods() {
    let d = static_role::set("m", "s", None).unwrap();
    assert_eq!((d.path.as_str(), d.method), ("m/static-roles/s", Method::Post));
    let d = static_role::delete("m", "s").unwrap();
    assert_eq!((d.path.as_str(), d.method), ("m/static-roles/s", Method::Delete));
    let d = static_role::list("m").unwrap();
    assert_eq!((d.path.as_str(), d.method), ("m/static-roles", Method::List));
    let d = static_role::read("m", "s").unwrap();
    assert_eq!((d.path.as_str(), d.method), ("m/static-roles/s", Method::Get));
    let d = static_role::rotate("m", "s").unwrap();
    assert_eq!((d.path.as_str(), d.method), ("m/rotate-role/s", Method::Post));
    let d = static_role::creds("m", "s").unwrap();
    assert_eq!((d.path.as_str(), d.method), ("m/static-creds/s", Method::Get));
}

#[test]
fn postgres_body_encodes_present_fields_only() {
    let cfg = PostgresConnectionConfig {
        plugin_name: Some("postgresql-database-plugin".to_string()),
        connection_url: Some("postgres://postgres@localhost/postgres".to_string()),
        username: None,
        password: None,
        verify_connection: Some(true),
        allowed_roles: Some(vec!["my-role".to_string()]),
        root_rotation_statements: None,
    };
    let d = connection::postgres("database", "pg", Some(&cfg)).unwrap();
    assert_eq!(
        d.body,
        vec![
            (
                "plugin_name".to_string(),
                Value::Text("postgresql-database-plugin".to_string())
            ),
            (
                "connection_url".to_string(),
                Value::Text("postgres://postgres@localhost/postgres".to_string())
            ),
            ("verify_connection".to_string(), Value::Flag(true)),
            (
                "allowed_roles".to_string(),
                Value::List(vec!["my-role".to_string()])
            ),
        ]
    );
}

#[test]
fn role_body_encoding() {
    let cfg = RoleConfig {
        db_name: Some("pg".to_string()),
        creation_statements: Some(vec!["CREATE ROLE \"{{name}}\";".to_string()]),
        revocation_statements: None,
        default_ttl: Some(3600),
        max_ttl: None,
    };
    let d = role::set("database", "my-role", Some(&cfg)).unwrap();
    assert_eq!(
        d.body,
        vec![
            ("db_name".to_string(), Value::Text("pg".to_string())),
            (
                "creation_statements".to_string(),
                Value::List(vec!["CREATE ROLE \"{{name}}\";".to_string()])
            ),
            ("default_ttl".to_string(), Value::Number(3600)),
        ]
    );
}

#[test]
fn static_role_body_encoding() {
    let cfg = StaticRoleConfig {
        db_name: Some("pg".to_string()),
        username: Some("app-user".to_string()),
        rotation_period: Some(86400),
    };
    let d = static_role::set("database", "my-static", Some(&cfg)).unwrap();
    assert_eq!(
        d.body,
        vec![
            ("db_name".to_string(), Value::Text("pg".to_string())),
            ("username".to_string(), Value::Text("app-user".to_string())),
            ("rotation_period".to_string(), Value::Number(86400)),
        ]
    );
}
