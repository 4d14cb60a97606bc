use dbsecrets::connection;
use dbsecrets::digits::decimal_string;
use dbsecrets::engine::fresh_password;
use dbsecrets::error::ClientError;
use dbsecrets::role;
use dbsecrets::static_role;
use dbsecrets::value::lookup;
use dbsecrets::value::set_field;
use dbsecrets::value::Value;
use dbsecrets::wire::decode_empty;
use dbsecrets::wire::decode_list;
use dbsecrets::wire::need_text;
use dbsecrets::wire::take_num;
use dbsecrets::wire::WireResponse;

#[test]
fn decimal_rendering() {
    assert_eq!(decimal_string(0).as_str(), "0");
    assert_eq!(decimal_string(7).as_str(), "7");
    assert_eq!(decimal_string(10).as_str(), "10");
    assert_eq!(decimal_string(105).as_str(), "105");
    assert_eq!(decimal_string(u64::MAX).as_str(), "18446744073709551615");
}

#[test]
fn fresh_password_rendering() {
    assert_eq!(fresh_password(0).as_str(), "pw-0");
    assert_eq!(fresh_password(42).as_str(), "pw-42");
}

#[test]
fn decode_wrong_field_type_is_decode_error() {
    let w = WireResponse {
        status: 200,
        fields: vec![("plugin_name".to_string(), Value::Number(3))],
    };
    let e = connection::decode_read(&w).unwrap_err();
    assert!(matches!(e, ClientError::Decode { .. }));

    let w = WireResponse {
        status: 200,
        fields: vec![("default_ttl".to_string(), Value::Text("soon".to_string()))],
    };
    let e = role::decode_read(&w).unwrap_err();
    assert!(matches!(e, ClientError::Decode { .. }));
}

#[test]
fn decode_surfaces_status_errors() {
    let w = WireResponse { status: 500, fields: vec![] };
    let e = connection::decode_read(&w).unwrap_err();
    assert!(matches!(e, ClientError::Status { code: 500, .. }));
    assert!(!e.not_found());

    let w = WireResponse { status: 404, fields: vec![] };
    let e = static_role::decode_read(&w).unwrap_err();
    assert!(e.not_found());

    let w = WireResponse { status: 503, fields: vec![] };
    assert!(matches!(
        decode_empty(&w).unwrap_err(),
        ClientError::Status { code: 503, .. }
    ));
}

#[test]
fn decode_list_requires_keys_field() {
    let w = WireResponse { status: 200, fields: vec![] };
    assert!(matches!(
        decode_list(&w).unwrap_err(),
        ClientError::Decode { .. }
    ));

    let w = WireResponse {
        status: 200,
        fields: vec![("keys".to_string(), Value::Text("oops".to_string()))],
    };
    assert!(matches!(
        decode_list(&w).unwrap_err(),
        ClientError::Decode { .. }
    ));

    let w = WireResponse {
        status: 200,
        fields: vec![("keys".to_string(), Value::List(vec![]))],
    };
    assert!(decode_list(&w).unwrap().keys.is_empty());
}

#[test]
fn decode_creds_requires_username_and_password() {
    let w = WireResponse {
        status: 200,
        fields: vec![("username".to_string(), Value::Text("u".to_string()))],
    };
    assert!(matches!(
        role::decode_creds(&w).unwrap_err(),
        ClientError::Decode { .. }
    ));

    let w = WireResponse {
        status: 200,
        fields: vec![
            ("username".to_string(), Value::Text("u".to_string())),
            ("password".to_string(), Value::Text("p".to_string())),
        ],
    };
    let c = static_role::decode_creds(&w).unwrap();
    assert_eq!(c.username.as_str(), "u");
    assert_eq!(c.password.as_str(), "p");
}

#[test]
fn lookup_takes_first_match() {
    let fields = vec![
        ("k".to_string(), Value::Number(1)),
        ("k".to_string(), Value::Number(2)),
        ("other".to_string(), Value::Flag(true)),
    ];
    assert_eq!(lookup(&fields, &"k".to_string()), Some(&Value::Number(1)));
    assert_eq!(lookup(&fields, &"other".to_string()), Some(&Value::Flag(true)));
    assert_eq!(lookup(&fields, &"missing".to_string()), None);
}

#[test]
fn set_field_replaces_first_or_appends() {
    let fields = vec![
        ("a".to_string(), Value::Number(1)),
        ("b".to_string(), Value::Number(2)),
    ];
    let replaced = set_field(fields.clone(), "a".to_string(), Value::Number(9));
    assert_eq!(
        replaced,
        vec![
            ("a".to_string(), Value::Number(9)),
            ("b".to_string(), Value::Number(2)),
        ]
    );
    let appended = set_field(fields, "c".to_string(), Value::Flag(false));
    assert_eq!(
        appended,
        vec![
            ("a".to_string(), Value::Number(1)),
            ("b".to_string(), Value::Number(2)),
            ("c".to_string(), Value::Flag(false)),
        ]
    );
}

#[test]
fn field_helpers_check_shapes() {
    let fields = vec![
        ("n".to_string(), Value::Flag(true)),
        ("t".to_string(), Value::Text("x".to_string())),
    ];
    assert!(matches!(
        take_num(&fields, "n").unwrap_err(),
        ClientError::Decode { .. }
    ));
    assert_eq!(take_num(&fields, "absent").unwrap(), None);
    assert_eq!(need_text(&fields, "t").unwrap().as_str(), "x");
    assert!(matches!(
        need_text(&fields, "absent").unwrap_err(),
        ClientError::Decode { .. }
    ));
}

#[test]
fn not_found_classification() {
    let nf = ClientError::Status { code: 404, message: String::new() };
    assert!(nf.not_found());
    let other = ClientError::Status { code: 500, message: String::new() };
    assert!(!other.not_found());
    let transport = ClientError::Transport { message: "no route".to_string() };
    assert!(!transport.not_found());
}
