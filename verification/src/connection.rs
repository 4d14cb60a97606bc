//! Connection operations: configuring, inspecting and maintaining the
//! engine's database connections.
//!
//! A connection is identified by `(mount, name)`.  The set operation carries
//! an optional PostgreSQL configuration; the remaining operations carry no
//! body.

use vstd::prelude::*;
use crate::error::ClientError;
use crate::request::Kind;
use crate::request::RequestDescriptor;
use crate::request::Verb;
use crate::request::build;
use crate::request::build_list;
use crate::request::list_build_outcome;
use crate::request::named_build_outcome;
use crate::value::Fields;
use crate::value::FieldsView;
use crate::value::lemma_field_lookup_append;
use crate::value::lemma_field_lookup_opt_field;
use crate::value::opt_field;
use crate::value::opt_flag;
use crate::value::opt_list;
use crate::value::opt_text;
use crate::value::push_opt_flag;
use crate::value::push_opt_list;
use crate::value::push_opt_text;
use crate::wire::WireResponse;
use crate::wire::check_status;
use crate::wire::flag_ok;
use crate::wire::list_ok;
use crate::wire::spec_flag_at;
use crate::wire::spec_list_at;
use crate::wire::spec_text_at;
use crate::wire::status_ok;
use crate::wire::take_flag;
use crate::wire::take_list;
use crate::wire::take_text;
use crate::wire::text_ok;

verus! {

/// Configuration of a PostgreSQL connection; every field is optional and
/// only the present ones are sent.
#[derive(Debug)]
pub struct PostgresConnectionConfig {
    pub plugin_name: Option<String>,
    pub connection_url: Option<String>,
    pub username: Option<String>,
    pub password: Option<String>,
    pub verify_connection: Option<bool>,
    pub allowed_roles: Option<Vec<String>>,
    pub root_rotation_statements: Option<Vec<String>>,
}

impl PostgresConnectionConfig {
    /// The configuration with no field set.
    pub open spec fn spec_default() -> PostgresConnectionConfig {
        PostgresConnectionConfig {
            plugin_name: None,
            connection_url: None,
            username: None,
            password: None,
            verify_connection: None,
            allowed_roles: None,
            root_rotation_statements: None,
        }
    }

    /// An empty configuration, to be filled field by field.
    pub fn new() -> (r: Self)
        ensures
            r == Self::spec_default(),
    {
        PostgresConnectionConfig {
            plugin_name: None,
            connection_url: None,
            username: None,
            password: None,
            verify_connection: None,
            allowed_roles: None,
            root_rotation_statements: None,
        }
    }
}

/// The body the set operation sends for a configuration.
pub open spec fn connection_body(c: PostgresConnectionConfig) -> FieldsView {
    opt_field("plugin_name"@, opt_text(c.plugin_name.deep_view())) + opt_field(
        "connection_url"@,
        opt_text(c.connection_url.deep_view()),
    ) + opt_field("username"@, opt_text(c.username.deep_view())) + opt_field(
        "password"@,
        opt_text(c.password.deep_view()),
    ) + opt_field("verify_connection"@, opt_flag(c.verify_connection)) + opt_field(
        "allowed_roles"@,
        opt_list(c.allowed_roles.deep_view()),
    ) + opt_field("root_rotation_statements"@, opt_list(c.root_rotation_statements.deep_view()))
}

/// A body has the shape a connection record is read from.
pub open spec fn connection_well_typed(f: FieldsView) -> bool {
    &&& text_ok(f, "plugin_name"@)
    &&& text_ok(f, "connection_url"@)
    &&& text_ok(f, "username"@)
    &&& text_ok(f, "password"@)
    &&& flag_ok(f, "verify_connection"@)
    &&& list_ok(f, "allowed_roles"@)
    &&& list_ok(f, "root_rotation_statements"@)
}

/// Encodes a configuration as body fields.
pub fn connection_request_body(c: &PostgresConnectionConfig) -> (r: Fields)
    ensures
        r.deep_view() == connection_body(*c),
{
    let mut out: Fields = Vec::new();
    push_opt_text(&mut out, "plugin_name", &c.plugin_name);
    push_opt_text(&mut out, "connection_url", &c.connection_url);
    push_opt_text(&mut out, "username", &c.username);
    push_opt_text(&mut out, "password", &c.password);
    push_opt_flag(&mut out, "verify_connection", &c.verify_connection);
    push_opt_list(&mut out, "allowed_roles", &c.allowed_roles);
    push_opt_list(&mut out, "root_rotation_statements", &c.root_rotation_statements);
    assert(out.deep_view() =~= connection_body(*c));
    out
}

/// A connection record as the read operation returns it.
#[derive(Debug, PartialEq)]
pub struct ReadConnectionResponse {
    pub plugin_name: Option<String>,
    pub connection_url: Option<String>,
    pub username: Option<String>,
    pub password: Option<String>,
    pub verify_connection: Option<bool>,
    pub allowed_roles: Option<Vec<String>>,
    pub root_rotation_statements: Option<Vec<String>>,
}

/// Law: encoding a configuration and reading the fields back yields exactly
/// the configuration that was set, field for field, and the encoded body
/// always has the shape the decoder expects.
pub proof fn lemma_connection_round_trip(c: PostgresConnectionConfig)
    ensures
        connection_well_typed(connection_body(c)),
        spec_text_at(connection_body(c), "plugin_name"@) == c.plugin_name.deep_view(),
        spec_text_at(connection_body(c), "connection_url"@) == c.connection_url.deep_view(),
        spec_text_at(connection_body(c), "username"@) == c.username.deep_view(),
        spec_text_at(connection_body(c), "password"@) == c.password.deep_view(),
        spec_flag_at(connection_body(c), "verify_connection"@) == c.verify_connection,
        spec_list_at(connection_body(c), "allowed_roles"@) == c.allowed_roles.deep_view(),
        spec_list_at(connection_body(c), "root_rotation_statements"@)
            == c.root_rotation_statements.deep_view(),
{
    broadcast use lemma_field_lookup_append, lemma_field_lookup_opt_field;
    broadcast use vstd::string::group_string_axioms;

    reveal_strlit("plugin_name");
    reveal_strlit("connection_url");
    reveal_strlit("username");
    reveal_strlit("password");
    reveal_strlit("verify_connection");
    reveal_strlit("allowed_roles");
    reveal_strlit("root_rotation_statements");
    assert("plugin_name"@.len() == 11);
    assert("connection_url"@.len() == 14);
    assert("username"@.len() == 8);
    assert("password"@.len() == 8);
    assert("verify_connection"@.len() == 17);
    assert("allowed_roles"@.len() == 13);
    assert("root_rotation_statements"@.len() == 24);
    assert("username"@[0] == 'u');
    assert("password"@[0] == 'p');
}

/// Decodes a read answer into a connection record.
pub fn decode_read(wire: &WireResponse) -> (r: Result<ReadConnectionResponse, ClientError>)
    ensures
        r is Ok <==> status_ok(wire.status) && connection_well_typed(wire.fields.deep_view()),
        (r matches Ok(c) ==> {
            &&& c.plugin_name.deep_view() == spec_text_at(wire.fields.deep_view(), "plugin_name"@)
            &&& c.connection_url.deep_view() == spec_text_at(
                wire.fields.deep_view(),
                "connection_url"@,
            )
            &&& c.username.deep_view() == spec_text_at(wire.fields.deep_view(), "username"@)
            &&& c.password.deep_view() == spec_text_at(wire.fields.deep_view(), "password"@)
            &&& c.verify_connection == spec_flag_at(wire.fields.deep_view(), "verify_connection"@)
            &&& c.allowed_roles.deep_view() == spec_list_at(
                wire.fields.deep_view(),
                "allowed_roles"@,
            )
            &&& c.root_rotation_statements.deep_view() == spec_list_at(
                wire.fields.deep_view(),
                "root_rotation_statements"@,
            )
        }),
        (!status_ok(wire.status) ==> (r matches Err(e) && e matches ClientError::Status {
            code,
            ..
        } && code == wire.status)),
        wire.status == 404 ==> (r matches Err(e) && e.is_not_found()),
        (status_ok(wire.status) ==> (r matches Err(e) ==> e matches ClientError::Decode { .. })),
{
    match check_status(wire) {
        Ok(()) => {},
        Err(e) => {
            return Err(e);
        },
    }
    let plugin_name = match take_text(&wire.fields, "plugin_name") {
        Ok(v) => v,
        Err(e) => {
            return Err(e);
        },
    };
    let connection_url = match take_text(&wire.fields, "connection_url") {
        Ok(v) => v,
        Err(e) => {
            return Err(e);
        },
    };
    let username = match take_text(&wire.fields, "username") {
        Ok(v) => v,
        Err(e) => {
            return Err(e);
        },
    };
    let password = match take_text(&wire.fields, "password") {
        Ok(v) => v,
        Err(e) => {
            return Err(e);
        },
    };
    let verify_connection = match take_flag(&wire.fields, "verify_connection") {
        Ok(v) => v,
        Err(e) => {
            return Err(e);
        },
    };
    let allowed_roles = match take_list(&wire.fields, "allowed_roles") {
        Ok(v) => v,
        Err(e) => {
            return Err(e);
        },
    };
    let root_rotation_statements = match take_list(&wire.fields, "root_rotation_statements") {
        Ok(v) => v,
        Err(e) => {
            return Err(e);
        },
    };
    Ok(
        ReadConnectionResponse {
            plugin_name,
            connection_url,
            username,
            password,
            verify_connection,
            allowed_roles,
            root_rotation_statements,
        },
    )
}

/// The configuration an optional argument stands for: the given one, or the
/// empty default.
pub open spec fn opts_or_default(opts: Option<&PostgresConnectionConfig>) -> PostgresConnectionConfig {
    match opts {
        Some(c) => *c,
        None => PostgresConnectionConfig::spec_default(),
    }
}

/// Creates or updates a PostgreSQL connection: builds the set request,
/// encoding the given configuration (or the empty default) as the body.
pub fn postgres(mount: &str, name: &str, opts: Option<&PostgresConnectionConfig>) -> (r: Result<
    RequestDescriptor,
    ClientError,
>)
    ensures
        named_build_outcome(r, mount@, name@),
        (r matches Ok(d) ==> {
            &&& d.wf()
            &&& d.kind == Kind::Connection
            &&& d.verb == Verb::Write
            &&& d.mount@ == mount@
            &&& d.name matches Some(n) && n@ == name@
            &&& d.body.deep_view() == connection_body(opts_or_default(opts))
        }),
{
    let body = match opts {
        Some(c) => connection_request_body(c),
        None => {
            let c = PostgresConnectionConfig::new();
            connection_request_body(&c)
        },
    };
    build(Kind::Connection, Verb::Write, mount, name, body)
}

/// Deletes a connection.
pub fn delete(mount: &str, name: &str) -> (r: Result<RequestDescriptor, ClientError>)
    ensures
        named_build_outcome(r, mount@, name@),
        (r matches Ok(d) ==> {
            &&& d.wf()
            &&& d.kind == Kind::Connection
            &&& d.verb == Verb::Delete
            &&& d.mount@ == mount@
            &&& d.name matches Some(n) && n@ == name@
            &&& d.body.deep_view() == Seq::<(Seq<char>, crate::value::ValueView)>::empty()
        }),
{
    let body: Fields = Vec::new();
    assert(body.deep_view() =~= Seq::<(Seq<char>, crate::value::ValueView)>::empty());
    build(Kind::Connection, Verb::Delete, mount, name, body)
}

/// Lists all connections under a mount.
pub fn list(mount: &str) -> (r: Result<RequestDescriptor, ClientError>)
    ensures
        list_build_outcome(r, mount@),
        (r matches Ok(d) ==> {
            &&& d.wf()
            &&& d.kind == Kind::Connection
            &&& d.verb == Verb::List
            &&& d.mount@ == mount@
            &&& d.name is None
        }),
{
    build_list(Kind::Connection, mount)
}

/// Reads a connection.
pub fn read(mount: &str, name: &str) -> (r: Result<RequestDescriptor, ClientError>)
    ensures
        named_build_outcome(r, mount@, name@),
        (r matches Ok(d) ==> {
            &&& d.wf()
            &&& d.kind == Kind::Connection
            &&& d.verb == Verb::Read
            &&& d.mount@ == mount@
            &&& d.name matches Some(n) && n@ == name@
            &&& d.body.deep_view() == Seq::<(Seq<char>, crate::value::ValueView)>::empty()
        }),
{
    let body: Fields = Vec::new();
    assert(body.deep_view() =~= Seq::<(Seq<char>, crate::value::ValueView)>::empty());
    build(Kind::Connection, Verb::Read, mount, name, body)
}

/// Resets a connection's pooled state on the service.
pub fn reset(mount: &str, name: &str) -> (r: Result<RequestDescriptor, ClientError>)
    ensures
        named_build_outcome(r, mount@, name@),
        (r matches Ok(d) ==> {
            &&& d.wf()
            &&& d.kind == Kind::Connection
            &&& d.verb == Verb::Reset
            &&& d.mount@ == mount@
            &&& d.name matches Some(n) && n@ == name@
            &&& d.body.deep_view() == Seq::<(Seq<char>, crate::value::ValueView)>::empty()
        }),
{
    let body: Fields = Vec::new();
    assert(body.deep_view() =~= Seq::<(Seq<char>, crate::value::ValueView)>::empty());
    build(Kind::Connection, Verb::Reset, mount, name, body)
}

/// Rotates the root account configured in a connection.
pub fn rotate(mount: &str, name: &str) -> (r: Result<RequestDescriptor, ClientError>)
    ensures
        named_build_outcome(r, mount@, name@),
        (r matches Ok(d) ==> {
            &&& d.wf()
            &&& d.kind == Kind::Connection
            &&& d.verb == Verb::Rotate
            &&& d.mount@ == mount@
            &&& d.name matches Some(n) && n@ == name@
            &&& d.body.deep_view() == Seq::<(Seq<char>, crate::value::ValueView)>::empty()
        }),
{
    let body: Fields = Vec::new();
    assert(body.deep_view() =~= Seq::<(Seq<char>, crate::value::ValueView)>::empty());
    build(Kind::Connection, Verb::Rotate, mount, name, body)
}

} // verus!
