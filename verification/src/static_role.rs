//! Static-role operations: bindings to pre-existing database accounts with
//! scheduled credential rotation.
//!
//! A static role is identified by `(mount, name)`.  Its credentials call
//! returns the currently stored credentials — the same record until the next
//! rotation — rather than generating new ones.

use vstd::prelude::*;
use crate::error::ClientError;
use crate::request::Kind;
use crate::request::RequestDescriptor;
use crate::request::Verb;
use crate::request::build;
use crate::request::build_list;
use crate::request::list_build_outcome;
use crate::request::named_build_outcome;
use crate::value::Fields;
use crate::value::FieldsView;
use crate::value::lemma_field_lookup_append;
use crate::value::lemma_field_lookup_opt_field;
use crate::value::opt_field;
use crate::value::opt_num;
use crate::value::opt_text;
use crate::value::push_opt_num;
use crate::value::push_opt_text;
use crate::wire::WireResponse;
use crate::wire::check_status;
use crate::wire::need_text;
use crate::wire::num_ok;
use crate::wire::spec_num_at;
use crate::wire::spec_text_at;
use crate::wire::status_ok;
use crate::wire::take_num;
use crate::wire::take_text;
use crate::wire::text_ok;

verus! {

/// Configuration of a static role; every field is optional and only the
/// present ones are sent.
#[derive(Debug)]
pub struct StaticRoleConfig {
    pub db_name: Option<String>,
    pub username: Option<String>,
    pub rotation_period: Option<u64>,
}

impl StaticRoleConfig {
    /// The configuration with no field set.
    pub open spec fn spec_default() -> StaticRoleConfig {
        StaticRoleConfig { db_name: None, username: None, rotation_period: None }
    }

    /// An empty configuration, to be filled field by field.
    pub fn new() -> (r: Self)
        ensures
            r == Self::spec_default(),
    {
        StaticRoleConfig { db_name: None, username: None, rotation_period: None }
    }
}

/// The body the set operation sends for a static-role configuration.
pub open spec fn static_role_body(c: StaticRoleConfig) -> FieldsView {
    opt_field("db_name"@, opt_text(c.db_name.deep_view())) + opt_field(
        "username"@,
        opt_text(c.username.deep_view()),
    ) + opt_field("rotation_period"@, opt_num(c.rotation_period))
}

/// A body has the shape a static-role record is read from.
pub open spec fn static_role_well_typed(f: FieldsView) -> bool {
    &&& text_ok(f, "db_name"@)
    &&& text_ok(f, "username"@)
    &&& num_ok(f, "rotation_period"@)
}

/// Encodes a static-role configuration as body fields.
pub fn static_role_request_body(c: &StaticRoleConfig) -> (r: Fields)
    ensures
        r.deep_view() == static_role_body(*c),
{
    let mut out: Fields = Vec::new();
    push_opt_text(&mut out, "db_name", &c.db_name);
    push_opt_text(&mut out, "username", &c.username);
    push_opt_num(&mut out, "rotation_period", &c.rotation_period);
    assert(out.deep_view() =~= static_role_body(*c));
    out
}

/// A static-role record as the read operation returns it.
#[derive(Debug, PartialEq)]
pub struct ReadStaticRoleResponse {
    pub db_name: Option<String>,
    pub username: Option<String>,
    pub rotation_period: Option<u64>,
}

/// The currently stored credentials of a static role.
#[derive(Debug, PartialEq)]
pub struct StaticCredentialsResponse {
    pub username: String,
    pub password: String,
}

/// Law: encoding a static-role configuration and reading the fields back
/// yields exactly the configuration that was set, field for field, and the
/// encoded body always has the shape the decoder expects.
pub proof fn lemma_static_role_round_trip(c: StaticRoleConfig)
    ensures
        static_role_well_typed(static_role_body(c)),
        spec_text_at(static_role_body(c), "db_name"@) == c.db_name.deep_view(),
        spec_text_at(static_role_body(c), "username"@) == c.username.deep_view(),
        spec_num_at(static_role_body(c), "rotation_period"@) == c.rotation_period,
{
    broadcast use lemma_field_lookup_append, lemma_field_lookup_opt_field;
    broadcast use vstd::string::group_string_axioms;

    reveal_strlit("db_name");
    reveal_strlit("username");
    reveal_strlit("rotation_period");
    assert("db_name"@.len() == 7);
    assert("username"@.len() == 8);
    assert("rotation_period"@.len() == 15);
}

/// Decodes a read answer into a static-role record.
pub fn decode_read(wire: &WireResponse) -> (r: Result<ReadStaticRoleResponse, ClientError>)
    ensures
        r is Ok <==> status_ok(wire.status) && static_role_well_typed(wire.fields.deep_view()),
        (r matches Ok(c) ==> {
            &&& c.db_name.deep_view() == spec_text_at(wire.fields.deep_view(), "db_name"@)
            &&& c.username.deep_view() == spec_text_at(wire.fields.deep_view(), "username"@)
            &&& c.rotation_period == spec_num_at(wire.fields.deep_view(), "rotation_period"@)
        }),
        (!status_ok(wire.status) ==> (r matches Err(e) && e matches ClientError::Status {
            code,
            ..
        } && code == wire.status)),
        wire.status == 404 ==> (r matches Err(e) && e.is_not_found()),
        (status_ok(wire.status) ==> (r matches Err(e) ==> e matches ClientError::Decode { .. })),
{
    match check_status(wire) {
        Ok(()) => {},
        Err(e) => {
            return Err(e);
        },
    }
    let db_name = match take_text(&wire.fields, "db_name") {
        Ok(v) => v,
        Err(e) => {
            return Err(e);
        },
    };
    let username = match take_text(&wire.fields, "username") {
        Ok(v) => v,
        Err(e) => {
            return Err(e);
        },
    };
    let rotation_period = match take_num(&wire.fields, "rotation_period") {
        Ok(v) => v,
        Err(e) => {
            return Err(e);
        },
    };
    Ok(ReadStaticRoleResponse { db_name, username, rotation_period })
}

/// Decodes a stored-credentials answer: both the username and the password
/// are mandatory in a credential record.
pub fn decode_creds(wire: &WireResponse) -> (r: Result<StaticCredentialsResponse, ClientError>)
    ensures
        r is Ok <==> status_ok(wire.status) && spec_text_at(wire.fields.deep_view(), "username"@)
            is Some && spec_text_at(wire.fields.deep_view(), "password"@) is Some,
        (r matches Ok(c) ==> {
            &&& Some(c.username@) == spec_text_at(wire.fields.deep_view(), "username"@)
            &&& Some(c.password@) == spec_text_at(wire.fields.deep_view(), "password"@)
        }),
        (!status_ok(wire.status) ==> (r matches Err(e) && e matches ClientError::Status {
            code,
            ..
        } && code == wire.status)),
        wire.status == 404 ==> (r matches Err(e) && e.is_not_found()),
        (status_ok(wire.status) ==> (r matches Err(e) ==> e matches ClientError::Decode { .. })),
{
    match check_status(wire) {
        Ok(()) => {},
        Err(e) => {
            return Err(e);
        },
    }
    let username = match need_text(&wire.fields, "username") {
        Ok(v) => v,
        Err(e) => {
            return Err(e);
        },
    };
    let password = match need_text(&wire.fields, "password") {
        Ok(v) => v,
        Err(e) => {
            return Err(e);
        },
    };
    Ok(StaticCredentialsResponse { username, password })
}

/// The configuration an optional argument stands for: the given one, or the
/// empty default.
pub open spec fn opts_or_default(opts: Option<&StaticRoleConfig>) -> StaticRoleConfig {
    match opts {
        Some(c) => *c,
        None => StaticRoleConfig::spec_default(),
    }
}

/// Creates or updates a static role: builds the set request, encoding the
/// given configuration (or the empty default) as the body.
pub fn set(mount: &str, name: &str, opts: Option<&StaticRoleConfig>) -> (r: Result<
    RequestDescriptor,
    ClientError,
>)
    ensures
        named_build_outcome(r, mount@, name@),
        (r matches Ok(d) ==> {
            &&& d.wf()
            &&& d.kind == Kind::StaticRole
            &&& d.verb == Verb::Write
            &&& d.mount@ == mount@
            &&& d.name matches Some(n) && n@ == name@
            &&& d.body.deep_view() == static_role_body(opts_or_default(opts))
        }),
{
    let body = match opts {
        Some(c) => static_role_request_body(c),
        None => {
            let c = StaticRoleConfig::new();
            static_role_request_body(&c)
        },
    };
    build(Kind::StaticRole, Verb::Write, mount, name, body)
}

/// Deletes a static role.
pub fn delete(mount: &str, name: &str) -> (r: Result<RequestDescriptor, ClientError>)
    ensures
        named_build_outcome(r, mount@, name@),
        (r matches Ok(d) ==> {
            &&& d.wf()
            &&& d.kind == Kind::StaticRole
            &&& d.verb == Verb::Delete
            &&& d.mount@ == mount@
            &&& d.name matches Some(n) && n@ == name@
            &&& d.body.deep_view() == Seq::<(Seq<char>, crate::value::ValueView)>::empty()
        }),
{
    let body: Fields = Vec::new();
    assert(body.deep_view() =~= Seq::<(Seq<char>, crate::value::ValueView)>::empty());
    build(Kind::StaticRole, Verb::Delete, mount, name, body)
}

/// Lists all static roles under a mount.
pub fn list(mount: &str) -> (r: Result<RequestDescriptor, ClientError>)
    ensures
        list_build_outcome(r, mount@),
        (r matches Ok(d) ==> {
            &&& d.wf()
            &&& d.kind == Kind::StaticRole
            &&& d.verb == Verb::List
            &&& d.mount@ == mount@
            &&& d.name is None
        }),
{
    build_list(Kind::StaticRole, mount)
}

/// Reads a static role.
pub fn read(mount: &str, name: &str) -> (r: Result<RequestDescriptor, ClientError>)
    ensures
        named_build_outcome(r, mount@, name@),
        (r matches Ok(d) ==> {
            &&& d.wf()
            &&& d.kind == Kind::StaticRole
            &&& d.verb == Verb::Read
            &&& d.mount@ == mount@
            &&& d.name matches Some(n) && n@ == name@
            &&& d.body.deep_view() == Seq::<(Seq<char>, crate::value::ValueView)>::empty()
        }),
{
    let body: Fields = Vec::new();
    assert(body.deep_view() =~= Seq::<(Seq<char>, crate::value::ValueView)>::empty());
    build(Kind::StaticRole, Verb::Read, mount, name, body)
}

/// Rotates the stored credentials of a static role.
pub fn rotate(mount: &str, name: &str) -> (r: Result<RequestDescriptor, ClientError>)
    ensures
        named_build_outcome(r, mount@, name@),
        (r matches Ok(d) ==> {
            &&& d.wf()
            &&& d.kind == Kind::StaticRole
            &&& d.verb == Verb::Rotate
            &&& d.mount@ == mount@
            &&& d.name matches Some(n) && n@ == name@
            &&& d.body.deep_view() == Seq::<(Seq<char>, crate::value::ValueView)>::empty()
        }),
{
    let body: Fields = Vec::new();
    assert(body.deep_view() =~= Seq::<(Seq<char>, crate::value::ValueView)>::empty());
    build(Kind::StaticRole, Verb::Rotate, mount, name, body)
}

/// Fetches the currently stored credentials of a static role.
pub fn creds(mount: &str, name: &str) -> (r: Result<RequestDescriptor, ClientError>)
    ensures
        named_build_outcome(r, mount@, name@),
        (r matches Ok(d) ==> {
            &&& d.wf()
            &&& d.kind == Kind::StaticRole
            &&& d.verb == Verb::Creds
            &&& d.mount@ == mount@
            &&& d.name matches Some(n) && n@ == name@
            &&& d.body.deep_view() == Seq::<(Seq<char>, crate::value::ValueView)>::empty()
        }),
{
    let body: Fields = Vec::new();
    assert(body.deep_view() =~= Seq::<(Seq<char>, crate::value::ValueView)>::empty());
    build(Kind::StaticRole, Verb::Creds, mount, name, body)
}

} // verus!
