//! Role operations: policies for generating dynamic database credentials.
//!
//! A role is identified by `(mount, name)`.  Generating credentials from a
//! role creates a fresh ephemeral account on each call; nothing is stored on
//! the client side.

use vstd::prelude::*;
use crate::error::ClientError;
use crate::request::Kind;
use crate::request::RequestDescriptor;
use crate::request::Verb;
use crate::request::build;
use crate::request::build_list;
use crate::request::list_build_outcome;
use crate::request::named_build_outcome;
use crate::value::Fields;
use crate::value::FieldsView;
use crate::value::lemma_field_lookup_append;
use crate::value::lemma_field_lookup_opt_field;
use crate::value::opt_field;
use crate::value::opt_list;
use crate::value::opt_num;
use crate::value::opt_text;
use crate::value::push_opt_list;
use crate::value::push_opt_num;
use crate::value::push_opt_text;
use crate::wire::WireResponse;
use crate::wire::check_status;
use crate::wire::list_ok;
use crate::wire::need_text;
use crate::wire::num_ok;
use crate::wire::spec_list_at;
use crate::wire::spec_num_at;
use crate::wire::spec_text_at;
use crate::wire::status_ok;
use crate::wire::take_list;
use crate::wire::take_num;
use crate::wire::take_text;
use crate::wire::text_ok;

verus! {

/// Configuration of a role; every field is optional and only the present
/// ones are sent.
#[derive(Debug)]
pub struct RoleConfig {
    pub db_name: Option<String>,
    pub creation_statements: Option<Vec<String>>,
    pub revocation_statements: Option<Vec<String>>,
    pub default_ttl: Option<u64>,
    pub max_ttl: Option<u64>,
}

impl RoleConfig {
    /// The configuration with no field set.
    pub open spec fn spec_default() -> RoleConfig {
        RoleConfig {
            db_name: None,
            creation_statements: None,
            revocation_statements: None,
            default_ttl: None,
            max_ttl: None,
        }
    }

    /// An empty configuration, to be filled field by field.
    pub fn new() -> (r: Self)
        ensures
            r == Self::spec_default(),
    {
        RoleConfig {
            db_name: None,
            creation_statements: None,
            revocation_statements: None,
            default_ttl: None,
            max_ttl: None,
        }
    }
}

/// The body the set operation sends for a role configuration.
pub open spec fn role_body(c: RoleConfig) -> FieldsView {
    opt_field("db_name"@, opt_text(c.db_name.deep_view())) + opt_field(
        "creation_statements"@,
        opt_list(c.creation_statements.deep_view()),
    ) + opt_field("revocation_statements"@, opt_list(c.revocation_statements.deep_view()))
        + opt_field("default_ttl"@, opt_num(c.default_ttl)) + opt_field(
        "max_ttl"@,
        opt_num(c.max_ttl),
    )
}

/// A body has the shape a role record is read from.
pub open spec fn role_well_typed(f: FieldsView) -> bool {
    &&& text_ok(f, "db_name"@)
    &&& list_ok(f, "creation_statements"@)
    &&& list_ok(f, "revocation_statements"@)
    &&& num_ok(f, "default_ttl"@)
    &&& num_ok(f, "max_ttl"@)
}

/// Encodes a role configuration as body fields.
pub fn role_request_body(c: &RoleConfig) -> (r: Fields)
    ensures
        r.deep_view() == role_body(*c),
{
    let mut out: Fields = Vec::new();
    push_opt_text(&mut out, "db_name", &c.db_name);
    push_opt_list(&mut out, "creation_statements", &c.creation_statements);
    push_opt_list(&mut out, "revocation_statements", &c.revocation_statements);
    push_opt_num(&mut out, "default_ttl", &c.default_ttl);
    push_opt_num(&mut out, "max_ttl", &c.max_ttl);
    assert(out.deep_view() =~= role_body(*c));
    out
}

/// A role record as the read operation returns it.
#[derive(Debug, PartialEq)]
pub struct ReadRoleResponse {
    pub db_name: Option<String>,
    pub creation_statements: Option<Vec<String>>,
    pub revocation_statements: Option<Vec<String>>,
    pub default_ttl: Option<u64>,
    pub max_ttl: Option<u64>,
}

/// Dynamic credentials generated from a role.
#[derive(Debug, PartialEq)]
pub struct CredentialsResponse {
    pub username: String,
    pub password: String,
}

/// Law: encoding a role configuration and reading the fields back yields
/// exactly the configuration that was set, field for field, and the encoded
/// body always has the shape the decoder expects.
pub proof fn lemma_role_round_trip(c: RoleConfig)
    ensures
        role_well_typed(role_body(c)),
        spec_text_at(role_body(c), "db_name"@) == c.db_name.deep_view(),
        spec_list_at(role_body(c), "creation_statements"@) == c.creation_statements.deep_view(),
        spec_list_at(role_body(c), "revocation_statements"@) == c.revocation_statements.deep_view(),
        spec_num_at(role_body(c), "default_ttl"@) == c.default_ttl,
        spec_num_at(role_body(c), "max_ttl"@) == c.max_ttl,
{
    broadcast use lemma_field_lookup_append, lemma_field_lookup_opt_field;
    broadcast use vstd::string::group_string_axioms;

    reveal_strlit("db_name");
    reveal_strlit("creation_statements");
    reveal_strlit("revocation_statements");
    reveal_strlit("default_ttl");
    reveal_strlit("max_ttl");
    assert("db_name"@.len() == 7);
    assert("creation_statements"@.len() == 19);
    assert("revocation_statements"@.len() == 21);
    assert("default_ttl"@.len() == 11);
    assert("max_ttl"@.len() == 7);
    assert("db_name"@[0] == 'd');
    assert("max_ttl"@[0] == 'm');
}

/// Decodes a read answer into a role record.
pub fn decode_read(wire: &WireResponse) -> (r: Result<ReadRoleResponse, ClientError>)
    ensures
        r is Ok <==> status_ok(wire.status) && role_well_typed(wire.fields.deep_view()),
        (r matches Ok(c) ==> {
            &&& c.db_name.deep_view() == spec_text_at(wire.fields.deep_view(), "db_name"@)
            &&& c.creation_statements.deep_view() == spec_list_at(
                wire.fields.deep_view(),
                "creation_statements"@,
            )
            &&& c.revocation_statements.deep_view() == spec_list_at(
                wire.fields.deep_view(),
                "revocation_statements"@,
            )
            &&& c.default_ttl == spec_num_at(wire.fields.deep_view(), "default_ttl"@)
            &&& c.max_ttl == spec_num_at(wire.fields.deep_view(), "max_ttl"@)
        }),
        (!status_ok(wire.status) ==> (r matches Err(e) && e matches ClientError::Status {
            code,
            ..
        } && code == wire.status)),
        wire.status == 404 ==> (r matches Err(e) && e.is_not_found()),
        (status_ok(wire.status) ==> (r matches Err(e) ==> e matches ClientError::Decode { .. })),
{
    match check_status(wire) {
        Ok(()) => {},
        Err(e) => {
            return Err(e);
        },
    }
    let db_name = match take_text(&wire.fields, "db_name") {
        Ok(v) => v,
        Err(e) => {
            return Err(e);
        },
    };
    let creation_statements = match take_list(&wire.fields, "creation_statements") {
        Ok(v) => v,
        Err(e) => {
            return Err(e);
        },
    };
    let revocation_statements = match take_list(&wire.fields, "revocation_statements") {
        Ok(v) => v,
        Err(e) => {
            return Err(e);
        },
    };
    let default_ttl = match take_num(&wire.fields, "default_ttl") {
        Ok(v) => v,
        Err(e) => {
            return Err(e);
        },
    };
    let max_ttl = match take_num(&wire.fields, "max_ttl") {
        Ok(v) => v,
        Err(e) => {
            return Err(e);
        },
    };
    Ok(
        ReadRoleResponse {
            db_name,
            creation_statements,
            revocation_statements,
            default_ttl,
            max_ttl,
        },
    )
}

/// Decodes a credentials answer: both the username and the password are
/// mandatory in a credential record.
pub fn decode_creds(wire: &WireResponse) -> (r: Result<CredentialsResponse, ClientError>)
    ensures
        r is Ok <==> status_ok(wire.status) && spec_text_at(wire.fields.deep_view(), "username"@)
            is Some && spec_text_at(wire.fields.deep_view(), "password"@) is Some,
        (r matches Ok(c) ==> {
            &&& Some(c.username@) == spec_text_at(wire.fields.deep_view(), "username"@)
            &&& Some(c.password@) == spec_text_at(wire.fields.deep_view(), "password"@)
        }),
        (!status_ok(wire.status) ==> (r matches Err(e) && e matches ClientError::Status {
            code,
            ..
        } && code == wire.status)),
        wire.status == 404 ==> (r matches Err(e) && e.is_not_found()),
        (status_ok(wire.status) ==> (r matches Err(e) ==> e matches ClientError::Decode { .. })),
{
    match check_status(wire) {
        Ok(()) => {},
        Err(e) => {
            return Err(e);
        },
    }
    let username = match need_text(&wire.fields, "username") {
        Ok(v) => v,
        Err(e) => {
            return Err(e);
        },
    };
    let password = match need_text(&wire.fields, "password") {
        Ok(v) => v,
        Err(e) => {
            return Err(e);
        },
    };
    Ok(CredentialsResponse { username, password })
}

/// The configuration an optional argument stands for: the given one, or the
/// empty default.
pub open spec fn opts_or_default(opts: Option<&RoleConfig>) -> RoleConfig {
    match opts {
        Some(c) => *c,
        None => RoleConfig::spec_default(),
    }
}

/// Creates or updates a role: builds the set request, encoding the given
/// configuration (or the empty default) as the body.
pub fn set(mount: &str, name: &str, opts: Option<&RoleConfig>) -> (r: Result<
    RequestDescriptor,
    ClientError,
>)
    ensures
        named_build_outcome(r, mount@, name@),
        (r matches Ok(d) ==> {
            &&& d.wf()
            &&& d.kind == Kind::Role
            &&& d.verb == Verb::Write
            &&& d.mount@ == mount@
            &&& d.name matches Some(n) && n@ == name@
            &&& d.body.deep_view() == role_body(opts_or_default(opts))
        }),
{
    let body = match opts {
        Some(c) => role_request_body(c),
        None => {
            let c = RoleConfig::new();
            role_request_body(&c)
        },
    };
    build(Kind::Role, Verb::Write, mount, name, body)
}

/// Deletes a role.
pub fn delete(mount: &str, name: &str) -> (r: Result<RequestDescriptor, ClientError>)
    ensures
        named_build_outcome(r, mount@, name@),
        (r matches Ok(d) ==> {
            &&& d.wf()
            &&& d.kind == Kind::Role
            &&& d.verb == Verb::Delete
            &&& d.mount@ == mount@
            &&& d.name matches Some(n) && n@ == name@
            &&& d.body.deep_view() == Seq::<(Seq<char>, crate::value::ValueView)>::empty()
        }),
{
    let body: Fields = Vec::new();
    assert(body.deep_view() =~= Seq::<(Seq<char>, crate::value::ValueView)>::empty());
    build(Kind::Role, Verb::Delete, mount, name, body)
}

/// Lists all roles under a mount.
pub fn list(mount: &str) -> (r: Result<RequestDescriptor, ClientError>)
    ensures
        list_build_outcome(r, mount@),
        (r matches Ok(d) ==> {
            &&& d.wf()
            &&& d.kind == Kind::Role
            &&& d.verb == Verb::List
            &&& d.mount@ == mount@
            &&& d.name is None
        }),
{
    build_list(Kind::Role, mount)
}

/// Reads a role.
pub fn read(mount: &str, name: &str) -> (r: Result<RequestDescriptor, ClientError>)
    ensures
        named_build_outcome(r, mount@, name@),
        (r matches Ok(d) ==> {
            &&& d.wf()
            &&& d.kind == Kind::Role
            &&& d.verb == Verb::Read
            &&& d.mount@ == mount@
            &&& d.name matches Some(n) && n@ == name@
            &&& d.body.deep_view() == Seq::<(Seq<char>, crate::value::ValueView)>::empty()
        }),
{
    let body: Fields = Vec::new();
    assert(body.deep_view() =~= Seq::<(Seq<char>, crate::value::ValueView)>::empty());
    build(Kind::Role, Verb::Read, mount, name, body)
}

/// Generates fresh credentials from a role.
pub fn creds(mount: &str, name: &str) -> (r: Result<RequestDescriptor, ClientError>)
    ensures
        named_build_outcome(r, mount@, name@),
        (r matches Ok(d) ==> {
            &&& d.wf()
            &&& d.kind == Kind::Role
            &&& d.verb == Verb::Creds
            &&& d.mount@ == mount@
            &&& d.name matches Some(n) && n@ == name@
            &&& d.body.deep_view() == Seq::<(Seq<char>, crate::value::ValueView)>::empty()
        }),
{
    let body: Fields = Vec::new();
    assert(body.deep_view() =~= Seq::<(Seq<char>, crate::value::ValueView)>::empty());
    build(Kind::Role, Verb::Creds, mount, name, body)
}

} // verus!
