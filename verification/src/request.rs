//! Request descriptors and the builder that validates them.
//!
//! Every operation of the engine maps to an HTTP verb and a path of the form
//! `<mount>/<segment>/<name>` (`<mount>/<segment>` for list calls), with a
//! body carrying the configuration fields.  The builder checks the mandatory
//! fields before anything could be dispatched: an empty mount or name is a
//! `Build` error and no descriptor is produced.

use vstd::prelude::*;
use vstd::string::StringExecFns;
use crate::error::ClientError;
use crate::value::Fields;

verus! {

/// The resource kinds of the database engine.
#[derive(Debug, Clone, Copy, PartialEq, Eq, Structural)]
pub enum Kind {
    Connection,
    Role,
    StaticRole,
}

/// The operations the engine offers; not every kind supports every verb.
#[derive(Debug, Clone, Copy, PartialEq, Eq, Structural)]
pub enum Verb {
    Write,
    Delete,
    List,
    Read,
    Reset,
    Rotate,
    Creds,
}

/// The HTTP methods the engine's endpoints use.
#[derive(Debug, Clone, Copy, PartialEq, Eq, Structural)]
pub enum Method {
    Get,
    Post,
    Delete,
    List,
}

/// Which verbs each resource kind supports.
pub open spec fn supported(kind: Kind, verb: Verb) -> bool {
    match (kind, verb) {
        (_, Verb::Write) => true,
        (_, Verb::Delete) => true,
        (_, Verb::List) => true,
        (_, Verb::Read) => true,
        (Kind::Connection, Verb::Reset) => true,
        (Kind::Connection, Verb::Rotate) => true,
        (Kind::StaticRole, Verb::Rotate) => true,
        (Kind::Role, Verb::Creds) => true,
        (Kind::StaticRole, Verb::Creds) => true,
        _ => false,
    }
}

/// The HTTP method of each verb.
pub open spec fn method_of(verb: Verb) -> Method {
    match verb {
        Verb::Write => Method::Post,
        Verb::Delete => Method::Delete,
        Verb::List => Method::List,
        Verb::Read => Method::Get,
        Verb::Reset => Method::Post,
        Verb::Rotate => Method::Post,
        Verb::Creds => Method::Get,
    }
}

/// The path segment between the mount and the resource name.
pub open spec fn spec_segment(kind: Kind, verb: Verb) -> Seq<char> {
    match (kind, verb) {
        (Kind::Connection, Verb::Reset) => "reset"@,
        (Kind::Connection, Verb::Rotate) => "rotate-root"@,
        (Kind::Connection, _) => "config"@,
        (Kind::Role, Verb::Creds) => "creds"@,
        (Kind::Role, _) => "roles"@,
        (Kind::StaticRole, Verb::Rotate) => "rotate-role"@,
        (Kind::StaticRole, Verb::Creds) => "static-creds"@,
        (Kind::StaticRole, _) => "static-roles"@,
    }
}

/// The path segment under which a kind's resources are stored (the segment
/// of its set, read, delete and list endpoints).
pub open spec fn storage_segment(kind: Kind) -> Seq<char> {
    match kind {
        Kind::Connection => "config"@,
        Kind::Role => "roles"@,
        Kind::StaticRole => "static-roles"@,
    }
}

/// The path segment of a request.
pub fn segment(kind: Kind, verb: Verb) -> (r: &'static str)
    ensures
        r@ == spec_segment(kind, verb),
{
    match (kind, verb) {
        (Kind::Connection, Verb::Reset) => "reset",
        (Kind::Connection, Verb::Rotate) => "rotate-root",
        (Kind::Connection, _) => "config",
        (Kind::Role, Verb::Creds) => "creds",
        (Kind::Role, _) => "roles",
        (Kind::StaticRole, Verb::Rotate) => "rotate-role",
        (Kind::StaticRole, Verb::Creds) => "static-creds",
        (Kind::StaticRole, _) => "static-roles",
    }
}

/// The HTTP method of a verb.
pub fn method(verb: Verb) -> (r: Method)
    ensures
        r == method_of(verb),
{
    match verb {
        Verb::Write => Method::Post,
        Verb::Delete => Method::Delete,
        Verb::List => Method::List,
        Verb::Read => Method::Get,
        Verb::Reset => Method::Post,
        Verb::Rotate => Method::Post,
        Verb::Creds => Method::Get,
    }
}

impl Method {
    /// The spelling of the method on the wire.
    pub open spec fn spec_name(self) -> Seq<char> {
        match self {
            Method::Get => "GET"@,
            Method::Post => "POST"@,
            Method::Delete => "DELETE"@,
            Method::List => "LIST"@,
        }
    }

    /// The spelling of the method on the wire.
    pub fn name(&self) -> (r: &'static str)
        ensures
            r@ == self.spec_name(),
    {
        match self {
            Method::Get => "GET",
            Method::Post => "POST",
            Method::Delete => "DELETE",
            Method::List => "LIST",
        }
    }
}

/// The rendered path of a request.
pub open spec fn spec_path(
    kind: Kind,
    verb: Verb,
    mount: Seq<char>,
    name: Option<Seq<char>>,
) -> Seq<char> {
    let base = mount + "/"@ + spec_segment(kind, verb);
    match name {
        Some(n) => base + "/"@ + n,
        None => base,
    }
}

/// A finalized, validated request, ready for dispatch.
#[derive(Debug)]
pub struct RequestDescriptor {
    pub kind: Kind,
    pub verb: Verb,
    pub method: Method,
    pub mount: String,
    pub name: Option<String>,
    pub path: String,
    pub body: Fields,
}

impl RequestDescriptor {
    /// The name component's view, for named requests.
    pub open spec fn spec_name(&self) -> Seq<char>
        recommends
            self.name is Some,
    {
        match self.name {
            Some(n) => n@,
            None => Seq::empty(),
        }
    }

    /// Well-formedness: the descriptor came out of the builder.
    pub open spec fn wf(&self) -> bool {
        &&& supported(self.kind, self.verb)
        &&& self.method == method_of(self.verb)
        &&& self.mount@.len() > 0
        &&& (self.verb == Verb::List <==> self.name is None)
        &&& (self.name matches Some(n) ==> n@.len() > 0)
        &&& self.path@ == spec_path(
            self.kind,
            self.verb,
            self.mount@,
            match self.name {
                Some(n) => Some(n@),
                None => None,
            },
        )
    }
}

/// What the builder promises about its result: success exactly when the
/// mandatory fields are non-empty, and the missing field named otherwise.
pub open spec fn named_build_outcome(
    r: Result<RequestDescriptor, ClientError>,
    mount: Seq<char>,
    name: Seq<char>,
) -> bool {
    &&& (r is Ok <==> mount.len() > 0 && name.len() > 0)
    &&& (mount.len() == 0 ==> (r matches Err(e) && e matches ClientError::Build { field }
        && field@ == "mount"@))
    &&& (mount.len() > 0 && name.len() == 0 ==> (r matches Err(e) && e matches ClientError::Build {
        field,
    } && field@ == "name"@))
}

/// Same for list requests, which carry no name.
pub open spec fn list_build_outcome(
    r: Result<RequestDescriptor, ClientError>,
    mount: Seq<char>,
) -> bool {
    &&& (r is Ok <==> mount.len() > 0)
    &&& (mount.len() == 0 ==> (r matches Err(e) && e matches ClientError::Build { field }
        && field@ == "mount"@))
}

/// Builds a named request: validates the mandatory fields, renders the path
/// and finalizes the descriptor.
pub fn build(kind: Kind, verb: Verb, mount: &str, name: &str, body: Fields) -> (r: Result<
    RequestDescriptor,
    ClientError,
>)
    requires
        supported(kind, verb),
        verb != Verb::List,
    ensures
        named_build_outcome(r, mount@, name@),
        (r matches Ok(d) ==> {
            &&& d.wf()
            &&& d.kind == kind
            &&& d.verb == verb
            &&& d.method == method_of(verb)
            &&& d.mount@ == mount@
            &&& d.name matches Some(n) && n@ == name@
            &&& d.path@ == spec_path(kind, verb, mount@, Some(name@))
            &&& d.body.deep_view() == body.deep_view()
        }),
{
    if mount.is_empty() {
        return Err(ClientError::Build { field: String::from_str("mount") });
    }
    if name.is_empty() {
        return Err(ClientError::Build { field: String::from_str("name") });
    }
    let seg = segment(kind, verb);
    let mut path = mount.to_owned();
    path.append("/");
    path.append(seg);
    path.append("/");
    path.append(name);
    assert(path@ =~= spec_path(kind, verb, mount@, Some(name@)));
    Ok(
        RequestDescriptor {
            kind,
            verb,
            method: method(verb),
            mount: mount.to_owned(),
            name: Some(name.to_owned()),
            path,
            body,
        },
    )
}

/// Builds a list request, which targets the whole mount.
pub fn build_list(kind: Kind, mount: &str) -> (r: Result<RequestDescriptor, ClientError>)
    ensures
        list_build_outcome(r, mount@),
        (r matches Ok(d) ==> {
            &&& d.wf()
            &&& d.kind == kind
            &&& d.verb == Verb::List
            &&& d.method == Method::List
            &&& d.mount@ == mount@
            &&& d.name is None
            &&& d.path@ == spec_path(kind, Verb::List, mount@, None)
            &&& d.body.deep_view() == Seq::<(Seq<char>, crate::value::ValueView)>::empty()
        }),
{
    if mount.is_empty() {
        return Err(ClientError::Build { field: String::from_str("mount") });
    }
    let seg = segment(kind, Verb::List);
    let mut path = mount.to_owned();
    path.append("/");
    path.append(seg);
    assert(path@ =~= spec_path(kind, Verb::List, mount@, None));
    let body: Fields = Vec::new();
    assert(body.deep_view() =~= Seq::<(Seq<char>, crate::value::ValueView)>::empty());
    Ok(
        RequestDescriptor {
            kind,
            verb: Verb::List,
            method: method(Verb::List),
            mount: mount.to_owned(),
            name: None,
            path,
            body,
        },
    )
}

} // verus!
