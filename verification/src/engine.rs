//! An in-memory model of the database secrets engine.
//!
//! The engine stores each resource under its `(mount, segment, name)` key
//! and answers whole request descriptors, so complete request/response
//! rounds — a set followed by a read, a list over an empty mount, repeated
//! credential generation — can be exercised and reasoned about without a
//! network.  Its behaviour per operation is pinned down by `handle_effect`.

use vstd::prelude::*;
use vstd::string::StringExecFns;
use crate::digits::decimal_string;
use crate::digits::spec_decimal;
use crate::request::Kind;
use crate::request::RequestDescriptor;
use crate::request::Verb;
use crate::request::storage_segment;
use crate::value::Fields;
use crate::value::FieldsView;
use crate::value::Value;
use crate::value::ValueView;
use crate::value::copy_fields;
use crate::value::field_lookup;
use crate::value::field_set;
use crate::value::lookup;
use crate::value::set_field;
use crate::wire::WireResponse;

verus! {

/// One stored resource: its key and its body fields.
#[derive(Debug)]
pub struct StoredEntry {
    pub mount: String,
    pub segment: String,
    pub name: String,
    pub fields: Fields,
}

/// Mathematical shape of a stored resource.
pub struct EntryView {
    pub mount: Seq<char>,
    pub segment: Seq<char>,
    pub name: Seq<char>,
    pub fields: FieldsView,
}

impl DeepView for StoredEntry {
    type V = EntryView;

    open spec fn deep_view(&self) -> EntryView {
        EntryView {
            mount: self.mount@,
            segment: self.segment@,
            name: self.name@,
            fields: self.fields.deep_view(),
        }
    }
}

/// Whether an entry carries the given key.
pub open spec fn entry_is(e: EntryView, mount: Seq<char>, segment: Seq<char>, name: Seq<char>) -> bool {
    e.mount == mount && e.segment == segment && e.name == name
}

/// The fields stored under a key, if any.
pub open spec fn store_find(
    s: Seq<EntryView>,
    mount: Seq<char>,
    segment: Seq<char>,
    name: Seq<char>,
) -> Option<FieldsView>
    decreases s.len(),
{
    if s.len() == 0 {
        None
    } else if entry_is(s[0], mount, segment, name) {
        Some(s[0].fields)
    } else {
        store_find(s.drop_first(), mount, segment, name)
    }
}

/// The store without any entry under the given key.
pub open spec fn store_remove(
    s: Seq<EntryView>,
    mount: Seq<char>,
    segment: Seq<char>,
    name: Seq<char>,
) -> Seq<EntryView>
    decreases s.len(),
{
    if s.len() == 0 {
        Seq::empty()
    } else if entry_is(s[0], mount, segment, name) {
        store_remove(s.drop_first(), mount, segment, name)
    } else {
        seq![s[0]] + store_remove(s.drop_first(), mount, segment, name)
    }
}

/// The store with the entry under the given key replaced by `fields`.
pub open spec fn store_set(
    s: Seq<EntryView>,
    mount: Seq<char>,
    segment: Seq<char>,
    name: Seq<char>,
    fields: FieldsView,
) -> Seq<EntryView> {
    store_remove(s, mount, segment, name).push(EntryView { mount, segment, name, fields })
}

/// The names stored under a mount and segment, in storage order.
pub open spec fn store_names(s: Seq<EntryView>, mount: Seq<char>, segment: Seq<char>) -> Seq<
    Seq<char>,
>
    decreases s.len(),
{
    if s.len() == 0 {
        Seq::empty()
    } else if s[0].mount == mount && s[0].segment == segment {
        seq![s[0].name] + store_names(s.drop_first(), mount, segment)
    } else {
        store_names(s.drop_first(), mount, segment)
    }
}

/// Law: listing a mount under which nothing is stored yields the empty
/// collection of names — zero resources are an empty answer, not an error.
pub proof fn lemma_list_zero_resources(s: Seq<EntryView>, mount: Seq<char>, segment: Seq<char>)
    requires
        forall|i: int|
            0 <= i < s.len() ==> !((#[trigger] s[i]).mount == mount && s[i].segment == segment),
    ensures
        store_names(s, mount, segment) == Seq::<Seq<char>>::empty(),
    decreases s.len(),
{
    if s.len() == 0 {
    } else {
        assert(!(s[0].mount == mount && s[0].segment == segment));
        assert(forall|i: int|
            0 <= i < s.drop_first().len() ==> !((#[trigger] s.drop_first()[i]).mount == mount
                && s.drop_first()[i].segment == segment));
        lemma_list_zero_resources(s.drop_first(), mount, segment);
    }
}

/// Appending an entry is only visible to a lookup its key matches, and only
/// when no earlier entry already matched.
proof fn lemma_store_find_push(
    s: Seq<EntryView>,
    e: EntryView,
    mount: Seq<char>,
    segment: Seq<char>,
    name: Seq<char>,
)
    ensures
        store_find(s.push(e), mount, segment, name) == (match store_find(s, mount, segment, name) {
            Some(f) => Some(f),
            None => if entry_is(e, mount, segment, name) {
                Some(e.fields)
            } else {
                None
            },
        }),
    decreases s.len(),
{
    if s.len() == 0 {
        assert(s.push(e)[0] == e);
        assert(s.push(e).drop_first() =~= Seq::<EntryView>::empty());
        assert(store_find(Seq::<EntryView>::empty(), mount, segment, name) is None);
    } else {
        assert(s.push(e)[0] == s[0]);
        assert(s.push(e).drop_first() =~= s.drop_first().push(e));
        lemma_store_find_push(s.drop_first(), e, mount, segment, name);
    }
}

/// Removing a key hides exactly that key from lookups and nothing else.
proof fn lemma_store_remove_find(
    s: Seq<EntryView>,
    mount: Seq<char>,
    segment: Seq<char>,
    name: Seq<char>,
    m2: Seq<char>,
    s2: Seq<char>,
    n2: Seq<char>,
)
    ensures
        store_find(store_remove(s, mount, segment, name), m2, s2, n2) == (if mount == m2 && segment
            == s2 && name == n2 {
            None
        } else {
            store_find(s, m2, s2, n2)
        }),
    decreases s.len(),
{
    if s.len() == 0 {
    } else {
        lemma_store_remove_find(s.drop_first(), mount, segment, name, m2, s2, n2);
        if entry_is(s[0], mount, segment, name) {
        } else {
            let rest = store_remove(s.drop_first(), mount, segment, name);
            assert((seq![s[0]] + rest)[0] == s[0]);
            assert((seq![s[0]] + rest).drop_first() =~= rest);
        }
    }
}

/// Law: after storing fields under a key, reading that key yields exactly
/// those fields, and reading any other key is unaffected — the store-level
/// half of the set-then-read round trip.
pub proof fn lemma_store_set_find(
    s: Seq<EntryView>,
    mount: Seq<char>,
    segment: Seq<char>,
    name: Seq<char>,
    fields: FieldsView,
    m2: Seq<char>,
    s2: Seq<char>,
    n2: Seq<char>,
)
    ensures
        store_find(store_set(s, mount, segment, name, fields), m2, s2, n2) == (if mount == m2
            && segment == s2 && name == n2 {
            Some(fields)
        } else {
            store_find(s, m2, s2, n2)
        }),
{
    let e = EntryView { mount, segment, name, fields };
    lemma_store_remove_find(s, mount, segment, name, m2, s2, n2);
    lemma_store_find_push(store_remove(s, mount, segment, name), e, m2, s2, n2);
}

/// The password the engine mints for serial number `serial`.
pub open spec fn spec_password(serial: u64) -> Seq<char> {
    "pw-"@ + spec_decimal(serial as nat)
}

/// The serial counter after one generation.
pub open spec fn next_serial(serial: u64) -> u64 {
    if serial == u64::MAX {
        0
    } else {
        (serial + 1) as u64
    }
}

/// The account name a static role binds: the configured `username` field,
/// or the role's own name when none was configured.
pub open spec fn cred_username(body: FieldsView, name: Seq<char>) -> Seq<char> {
    match field_lookup(body, "username"@) {
        Some(ValueView::Text(u)) => u,
        _ => name,
    }
}

/// The credential record the engine stores for a static role.
pub open spec fn static_cred_fields(username: Seq<char>, serial: u64) -> FieldsView {
    seq![
        ("username"@, ValueView::Text(username)),
        ("password"@, ValueView::Text(spec_password(serial))),
    ]
}

/// The credential record the engine generates from a role.
pub open spec fn role_cred_fields(name: Seq<char>, serial: u64) -> FieldsView {
    seq![("username"@, ValueView::Text(name)), ("password"@, ValueView::Text(spec_password(serial)))]
}

/// Mathematical shape of the engine: its store and its serial counter.
pub struct EngineView {
    pub entries: Seq<EntryView>,
    pub serial: u64,
}

/// The in-memory engine.
#[derive(Debug)]
pub struct MemoryEngine {
    entries: Vec<StoredEntry>,
    serial: u64,
}

impl View for MemoryEngine {
    type V = EngineView;

    closed spec fn view(&self) -> EngineView {
        EngineView { entries: self.entries.deep_view(), serial: self.serial }
    }
}

/// What `handle` does for each operation, relating the engine before and
/// after the call to the status and body it answers.
pub open spec fn handle_effect(
    pre: EngineView,
    post: EngineView,
    req: RequestDescriptor,
    status: u16,
    body: FieldsView,
) -> bool {
    let m = req.mount@;
    let n = req.spec_name();
    let seg = storage_segment(req.kind);
    match req.verb {
        Verb::List => {
            &&& post == pre
            &&& status == 200
            &&& body == seq![("keys"@, ValueView::List(store_names(pre.entries, m, seg)))]
        },
        Verb::Read => (match store_find(pre.entries, m, seg, n) {
            Some(f) => post == pre && status == 200 && body == f,
            None => post == pre && status == 404 && body.len() == 0,
        }),
        Verb::Delete => {
            &&& status == 204
            &&& body.len() == 0
            &&& post.serial == pre.serial
            &&& post.entries == if req.kind is StaticRole {
                store_remove(
                    store_remove(pre.entries, m, "static-roles"@, n),
                    m,
                    "static-creds"@,
                    n,
                )
            } else {
                store_remove(pre.entries, m, seg, n)
            }
        },
        Verb::Write => {
            &&& status == 204
            &&& body.len() == 0
            &&& if req.kind is StaticRole {
                &&& post.entries == store_set(
                    store_set(pre.entries, m, "static-roles"@, n, req.body.deep_view()),
                    m,
                    "static-creds"@,
                    n,
                    static_cred_fields(cred_username(req.body.deep_view(), n), pre.serial),
                )
                &&& post.serial == next_serial(pre.serial)
            } else {
                &&& post.entries == store_set(pre.entries, m, seg, n, req.body.deep_view())
                &&& post.serial == pre.serial
            }
        },
        Verb::Reset => {
            &&& post == pre
            &&& body.len() == 0
            &&& status == if store_find(pre.entries, m, seg, n) is Some {
                204u16
            } else {
                404u16
            }
        },
        Verb::Rotate => (if req.kind is Connection {
            &&& post == pre
            &&& body.len() == 0
            &&& status == if store_find(pre.entries, m, seg, n) is Some {
                204u16
            } else {
                404u16
            }
        } else {
            match store_find(pre.entries, m, "static-creds"@, n) {
                Some(f) => {
                    &&& post.entries == store_set(
                        pre.entries,
                        m,
                        "static-creds"@,
                        n,
                        field_set(f, "password"@, ValueView::Text(spec_password(pre.serial))),
                    )
                    &&& post.serial == next_serial(pre.serial)
                    &&& status == 204
                    &&& body.len() == 0
                },
                None => post == pre && status == 404 && body.len() == 0,
            }
        }),
        Verb::Creds => (if req.kind is Role {
            match store_find(pre.entries, m, "roles"@, n) {
                Some(_) => {
                    &&& post.entries == pre.entries
                    &&& post.serial == next_serial(pre.serial)
                    &&& status == 200
                    &&& body == role_cred_fields(n, pre.serial)
                },
                None => post == pre && status == 404 && body.len() == 0,
            }
        } else {
            match store_find(pre.entries, m, "static-creds"@, n) {
                Some(f) => post == pre && status == 200 && body == f,
                None => post == pre && status == 404 && body.len() == 0,
            }
        }),
    }
}

/// Law: a set answered by the engine, followed by a read of the same
/// resource, answers the read with success and with exactly the fields that
/// were set, leaving the store as the set left it.
pub proof fn lemma_set_then_read(
    pre: EngineView,
    mid: EngineView,
    post: EngineView,
    set_req: RequestDescriptor,
    read_req: RequestDescriptor,
    set_status: u16,
    set_body: FieldsView,
    read_status: u16,
    read_body: FieldsView,
)
    requires
        set_req.verb == Verb::Write,
        read_req.verb == Verb::Read,
        set_req.kind == read_req.kind,
        set_req.mount@ == read_req.mount@,
        set_req.spec_name() == read_req.spec_name(),
        handle_effect(pre, mid, set_req, set_status, set_body),
        handle_effect(mid, post, read_req, read_status, read_body),
    ensures
        read_status == 200,
        read_body == set_req.body.deep_view(),
        post == mid,
{
    let m = set_req.mount@;
    let n = set_req.spec_name();
    let seg = storage_segment(set_req.kind);
    if set_req.kind is StaticRole {
        let creds = static_cred_fields(cred_username(set_req.body.deep_view(), n), pre.serial);
        let with_role = store_set(pre.entries, m, "static-roles"@, n, set_req.body.deep_view());
        // The credential entry lives under another segment, so it cannot
        // shadow the role entry the read looks up.
        reveal_strlit("static-roles");
        reveal_strlit("static-creds");
        assert("static-roles"@.len() == 12);
        assert("static-creds"@.len() == 12);
        assert("static-roles"@[7] == 'r');
        assert("static-creds"@[7] == 'c');
        lemma_store_set_find(with_role, m, "static-creds"@, n, creds, m, "static-roles"@, n);
        lemma_store_set_find(
            pre.entries,
            m,
            "static-roles"@,
            n,
            set_req.body.deep_view(),
            m,
            "static-roles"@,
            n,
        );
    } else {
        lemma_store_set_find(pre.entries, m, seg, n, set_req.body.deep_view(), m, seg, n);
    }
}

/// Law: a key under which nothing is stored finds nothing, so reading a
/// nonexistent name can only surface the missing-resource answer.
pub proof fn lemma_find_absent(
    s: Seq<EntryView>,
    mount: Seq<char>,
    segment: Seq<char>,
    name: Seq<char>,
)
    requires
        forall|i: int| 0 <= i < s.len() ==> !entry_is(#[trigger] s[i], mount, segment, name),
    ensures
        store_find(s, mount, segment, name) is None,
    decreases s.len(),
{
    if s.len() == 0 {
    } else {
        assert(forall|i: int|
            0 <= i < s.drop_first().len() ==> !entry_is(
                #[trigger] s.drop_first()[i],
                mount,
                segment,
                name,
            ));
        lemma_find_absent(s.drop_first(), mount, segment, name);
    }
}

/// Law: a delete answered by the engine, followed by a read of the same
/// resource, answers the read with the missing-resource status.
pub proof fn lemma_delete_then_read(
    pre: EngineView,
    mid: EngineView,
    post: EngineView,
    del_req: RequestDescriptor,
    read_req: RequestDescriptor,
    del_status: u16,
    del_body: FieldsView,
    read_status: u16,
    read_body: FieldsView,
)
    requires
        del_req.verb == Verb::Delete,
        read_req.verb == Verb::Read,
        del_req.kind == read_req.kind,
        del_req.mount@ == read_req.mount@,
        del_req.spec_name() == read_req.spec_name(),
        handle_effect(pre, mid, del_req, del_status, del_body),
        handle_effect(mid, post, read_req, read_status, read_body),
    ensures
        read_status == 404,
        read_body.len() == 0,
        post == mid,
{
    let m = del_req.mount@;
    let n = del_req.spec_name();
    let seg = storage_segment(del_req.kind);
    if del_req.kind is StaticRole {
        let without_role = store_remove(pre.entries, m, "static-roles"@, n);
        // The two removals target different segments; the role entry is gone
        // after the first and the second cannot bring it back.
        reveal_strlit("static-roles");
        reveal_strlit("static-creds");
        assert("static-roles"@.len() == 12);
        assert("static-creds"@.len() == 12);
        assert("static-roles"@[7] == 'r');
        assert("static-creds"@[7] == 'c');
        lemma_store_remove_find(without_role, m, "static-creds"@, n, m, "static-roles"@, n);
        lemma_store_remove_find(pre.entries, m, "static-roles"@, n, m, "static-roles"@, n);
    } else {
        lemma_store_remove_find(pre.entries, m, seg, n, m, seg, n);
    }
}

/// Law: distinct serials mint distinct passwords — the decimal rendering of
/// the serial is recoverable from the password, so no two generations hand
/// out the same secret.
pub proof fn lemma_password_injective(s1: u64, s2: u64)
    requires
        s1 != s2,
    ensures
        spec_password(s1) != spec_password(s2),
{
    reveal_strlit("pw-");
    assert("pw-"@.len() == 3);
    let p1 = spec_password(s1);
    let p2 = spec_password(s2);
    if p1 == p2 {
        assert(spec_decimal(s1 as nat) =~= p1.subrange(3, p1.len() as int));
        assert(spec_decimal(s2 as nat) =~= p2.subrange(3, p2.len() as int));
        crate::digits::lemma_decimal_value_round_trip(s1 as nat);
        crate::digits::lemma_decimal_value_round_trip(s2 as nat);
        assert(false);
    }
}

/// Law: generating credentials twice in a row from an existing role yields
/// two distinct records — generation, not caching.
pub proof fn lemma_role_creds_twice_distinct(
    pre: EngineView,
    mid: EngineView,
    post: EngineView,
    req: RequestDescriptor,
    status1: u16,
    body1: FieldsView,
    status2: u16,
    body2: FieldsView,
)
    requires
        req.verb == Verb::Creds,
        req.kind == Kind::Role,
        store_find(pre.entries, req.mount@, "roles"@, req.spec_name()) is Some,
        handle_effect(pre, mid, req, status1, body1),
        handle_effect(mid, post, req, status2, body2),
    ensures
        status1 == 200,
        status2 == 200,
        body1 != body2,
{
    assert(mid.serial == next_serial(pre.serial));
    assert(pre.serial != mid.serial);
    lemma_password_injective(pre.serial, mid.serial);
    let n = req.spec_name();
    assert(body1[1] == ("password"@, ValueView::Text(spec_password(pre.serial))));
    assert(body2[1] == ("password"@, ValueView::Text(spec_password(mid.serial))));
}

/// Law: fetching a static role's credentials twice without a rotation in
/// between yields the same record — the stored credentials, not fresh ones.
pub proof fn lemma_static_creds_stable(
    pre: EngineView,
    mid: EngineView,
    post: EngineView,
    req: RequestDescriptor,
    status1: u16,
    body1: FieldsView,
    status2: u16,
    body2: FieldsView,
)
    requires
        req.verb == Verb::Creds,
        req.kind == Kind::StaticRole,
        handle_effect(pre, mid, req, status1, body1),
        handle_effect(mid, post, req, status2, body2),
    ensures
        mid == pre,
        post == pre,
        status1 == status2,
        body1 == body2,
{
}

/// The store without any entry under the given key.
fn remove_entries(entries: Vec<StoredEntry>, m: &String, seg: &String, n: &String) -> (r: Vec<
    StoredEntry,
>)
    ensures
        r.deep_view() == store_remove(entries.deep_view(), m@, seg@, n@),
    decreases entries.len(),
{
    let mut entries = entries;
    if entries.len() == 0 {
        assert(entries.deep_view() =~= Seq::<EntryView>::empty());
        entries
    } else {
        let ghost pre = entries.deep_view();
        let head = entries.remove(0);
        assert(entries.deep_view() =~= pre.drop_first());
        assert(head.deep_view() == pre[0]);
        let is_hit = head.mount == *m && head.segment == *seg && head.name == *n;
        let rest = remove_entries(entries, m, seg, n);
        if is_hit {
            rest
        } else {
            let mut rest = rest;
            rest.insert(0, head);
            assert(rest.deep_view() =~= seq![pre[0]] + store_remove(
                pre.drop_first(),
                m@,
                seg@,
                n@,
            ));
            rest
        }
    }
}

/// The store with the entry under the given key replaced by `fields`.
fn put_entry(entries: Vec<StoredEntry>, m: &String, seg: &String, n: &String, fields: Fields) -> (r:
    Vec<StoredEntry>)
    ensures
        r.deep_view() == store_set(entries.deep_view(), m@, seg@, n@, fields.deep_view()),
{
    let ghost pre = entries.deep_view();
    let mut cleaned = remove_entries(entries, m, seg, n);
    let entry = StoredEntry { mount: m.clone(), segment: seg.clone(), name: n.clone(), fields };
    cleaned.push(entry);
    assert(cleaned.deep_view() =~= store_set(pre, m@, seg@, n@, entry.fields.deep_view()));
    cleaned
}

/// The fields of the first entry under the given key, at position `i` or
/// later.
fn find_from<'a>(entries: &'a Vec<StoredEntry>, i: usize, m: &String, seg: &String, n: &String) -> (r:
    Option<&'a Fields>)
    requires
        i <= entries.len(),
    ensures
        (match r {
            Some(f) => store_find(entries.deep_view().skip(i as int), m@, seg@, n@) == Some(
                f.deep_view(),
            ),
            None => store_find(entries.deep_view().skip(i as int), m@, seg@, n@) is None,
        }),
    decreases entries.len() - i,
{
    if i == entries.len() {
        assert(entries.deep_view().skip(i as int) =~= Seq::<EntryView>::empty());
        None
    } else {
        let e = &entries[i];
        assert(entries.deep_view().skip(i as int)[0] == entries.deep_view()[i as int]);
        if e.mount == *m && e.segment == *seg && e.name == *n {
            Some(&e.fields)
        } else {
            let r = find_from(entries, i + 1, m, seg, n);
            assert(entries.deep_view().skip(i as int).drop_first() =~= entries.deep_view().skip(
                i as int + 1,
            ));
            r
        }
    }
}

/// The names stored under a mount and segment, from position `i` on.
fn names_from(entries: &Vec<StoredEntry>, i: usize, m: &String, seg: &String) -> (r: Vec<String>)
    requires
        i <= entries.len(),
    ensures
        r.deep_view() == store_names(entries.deep_view().skip(i as int), m@, seg@),
    decreases entries.len() - i,
{
    if i == entries.len() {
        assert(entries.deep_view().skip(i as int) =~= Seq::<EntryView>::empty());
        let r: Vec<String> = Vec::new();
        assert(r.deep_view() =~= Seq::<Seq<char>>::empty());
        r
    } else {
        let rest = names_from(entries, i + 1, m, seg);
        let e = &entries[i];
        assert(entries.deep_view().skip(i as int)[0] == entries.deep_view()[i as int]);
        assert(entries.deep_view().skip(i as int).drop_first() =~= entries.deep_view().skip(
            i as int + 1,
        ));
        if e.mount == *m && e.segment == *seg {
            let mut rest = rest;
            rest.insert(0, e.name.clone());
            assert(rest.deep_view() =~= seq![e.name@] + store_names(
                entries.deep_view().skip(i as int + 1),
                m@,
                seg@,
            ));
            rest
        } else {
            rest
        }
    }
}

/// The password the engine mints for serial number `serial`.
pub fn fresh_password(serial: u64) -> (r: String)
    ensures
        r@ == spec_password(serial),
{
    let mut s = String::from_str("pw-");
    let d = decimal_string(serial);
    s.append(d.as_str());
    s
}

/// The storage segment of a kind's resources.
fn storage_segment_str(kind: Kind) -> (r: &'static str)
    ensures
        r@ == storage_segment(kind),
{
    match kind {
        Kind::Connection => "config",
        Kind::Role => "roles",
        Kind::StaticRole => "static-roles",
    }
}

impl MemoryEngine {
    /// A fresh engine with nothing stored.
    pub fn new() -> (r: Self)
        ensures
            r@.entries == Seq::<EntryView>::empty(),
            r@.serial == 0,
    {
        let entries: Vec<StoredEntry> = Vec::new();
        let r = MemoryEngine { entries, serial: 0 };
        assert(r@.entries =~= Seq::<EntryView>::empty());
        r
    }

    /// Advances the serial counter and hands out its previous value.
    fn bump(&mut self) -> (r: u64)
        ensures
            r == old(self)@.serial,
            final(self)@.serial == next_serial(old(self)@.serial),
            final(self)@.entries == old(self)@.entries,
    {
        let r = self.serial;
        self.serial = if self.serial == u64::MAX {
            0
        } else {
            self.serial + 1
        };
        r
    }

    /// Replaces the whole store.
    fn swap_entries(&mut self, entries: Vec<StoredEntry>) -> (r: Vec<StoredEntry>)
        ensures
            r.deep_view() == old(self)@.entries,
            final(self)@.entries == entries.deep_view(),
            final(self)@.serial == old(self)@.serial,
    {
        let mut taken = entries;
        core::mem::swap(&mut taken, &mut self.entries);
        taken
    }

    /// Answers one request, as the remote engine would.
    pub fn handle(&mut self, req: &RequestDescriptor) -> (r: WireResponse)
        requires
            req.wf(),
        ensures
            handle_effect(old(self)@, final(self)@, *req, r.status, r.fields.deep_view()),
    {
        let seg_str = storage_segment_str(req.kind);
        let seg = String::from_str(seg_str);
        match req.verb {
            Verb::List => {
                let names = names_from(&self.entries, 0, &req.mount, &seg);
                assert(self.entries.deep_view().skip(0) =~= self.entries.deep_view());
                let mut fields: Fields = Vec::new();
                fields.push((String::from_str("keys"), Value::List(names)));
                let r = WireResponse { status: 200, fields };
                assert(r.fields.deep_view() =~= seq![
                    ("keys"@, ValueView::List(store_names(old(self)@.entries, req.mount@, seg@))),
                ]);
                r
            },
            Verb::Read => {
                let name = match &req.name {
                    Some(n) => n,
                    None => vstd::pervasive::unreached(),
                };
                assert(self.entries.deep_view().skip(0) =~= self.entries.deep_view());
                match find_from(&self.entries, 0, &req.mount, &seg, name) {
                    Some(f) => {
                        let fields = copy_fields(f);
                        WireResponse { status: 200, fields }
                    },
                    None => {
                        let fields: Fields = Vec::new();
                        assert(fields.deep_view() =~= Seq::<(Seq<char>, ValueView)>::empty());
                        WireResponse { status: 404, fields }
                    },
                }
            },
            Verb::Delete => {
                let name = match &req.name {
                    Some(n) => n,
                    None => vstd::pervasive::unreached(),
                };
                let taken = self.swap_entries(Vec::new());
                let cleaned = match req.kind {
                    Kind::StaticRole => {
                        let sr = String::from_str("static-roles");
                        let sc = String::from_str("static-creds");
                        let without_role = remove_entries(taken, &req.mount, &sr, name);
                        remove_entries(without_role, &req.mount, &sc, name)
                    },
                    _ => remove_entries(taken, &req.mount, &seg, name),
                };
                let _ = self.swap_entries(cleaned);
                let fields: Fields = Vec::new();
                assert(fields.deep_view() =~= Seq::<(Seq<char>, ValueView)>::empty());
                WireResponse { status: 204, fields }
            },
            Verb::Write => {
                let name = match &req.name {
                    Some(n) => n,
                    None => vstd::pervasive::unreached(),
                };
                let body = copy_fields(&req.body);
                let taken = self.swap_entries(Vec::new());
                match req.kind {
                    Kind::StaticRole => {
                        let sr = String::from_str("static-roles");
                        let sc = String::from_str("static-creds");
                        let uname: String = {
                            let key = String::from_str("username");
                            match lookup(&req.body, &key) {
                                Some(v) => match v {
                                    Value::Text(u) => u.clone(),
                                    _ => name.clone(),
                                },
                                None => name.clone(),
                            }
                        };
                        let with_role = put_entry(taken, &req.mount, &sr, name, body);
                        let serial = self.bump();
                        let mut cred: Fields = Vec::new();
                        cred.push((String::from_str("username"), Value::Text(uname)));
                        cred.push((String::from_str("password"), Value::Text(fresh_password(serial))));
                        assert(cred.deep_view() =~= static_cred_fields(
                            cred_username(req.body.deep_view(), req.spec_name()),
                            serial,
                        ));
                        let with_creds = put_entry(with_role, &req.mount, &sc, name, cred);
                        let _ = self.swap_entries(with_creds);
                    },
                    _ => {
                        let stored = put_entry(taken, &req.mount, &seg, name, body);
                        let _ = self.swap_entries(stored);
                    },
                }
                let fields: Fields = Vec::new();
                assert(fields.deep_view() =~= Seq::<(Seq<char>, ValueView)>::empty());
                WireResponse { status: 204, fields }
            },
            Verb::Reset => {
                let name = match &req.name {
                    Some(n) => n,
                    None => vstd::pervasive::unreached(),
                };
                assert(self.entries.deep_view().skip(0) =~= self.entries.deep_view());
                let status: u16 = match find_from(&self.entries, 0, &req.mount, &seg, name) {
                    Some(_) => 204,
                    None => 404,
                };
                let fields: Fields = Vec::new();
                assert(fields.deep_view() =~= Seq::<(Seq<char>, ValueView)>::empty());
                WireResponse { status, fields }
            },
            Verb::Rotate => {
                let name = match &req.name {
                    Some(n) => n,
                    None => vstd::pervasive::unreached(),
                };
                match req.kind {
                    Kind::StaticRole => {
                        let sc = String::from_str("static-creds");
                        assert(self.entries.deep_view().skip(0) =~= self.entries.deep_view());
                        let found = match find_from(&self.entries, 0, &req.mount, &sc, name) {
                            Some(f) => Some(copy_fields(f)),
                            None => None,
                        };
                        match found {
                            Some(f) => {
                                let serial = self.bump();
                                let rotated = set_field(
                                    f,
                                    String::from_str("password"),
                                    Value::Text(fresh_password(serial)),
                                );
                                let taken = self.swap_entries(Vec::new());
                                let stored = put_entry(taken, &req.mount, &sc, name, rotated);
                                let _ = self.swap_entries(stored);
                                let fields: Fields = Vec::new();
                                assert(fields.deep_view() =~= Seq::<(Seq<char>, ValueView)>::empty());
                                WireResponse { status: 204, fields }
                            },
                            None => {
                                let fields: Fields = Vec::new();
                                assert(fields.deep_view() =~= Seq::<(Seq<char>, ValueView)>::empty());
                                WireResponse { status: 404, fields }
                            },
                        }
                    },
                    _ => {
                        assert(self.entries.deep_view().skip(0) =~= self.entries.deep_view());
                        let status: u16 = match find_from(&self.entries, 0, &req.mount, &seg, name) {
                            Some(_) => 204,
                            None => 404,
                        };
                        let fields: Fields = Vec::new();
                        assert(fields.deep_view() =~= Seq::<(Seq<char>, ValueView)>::empty());
                        WireResponse { status, fields }
                    },
                }
            },
            Verb::Creds => {
                let name = match &req.name {
                    Some(n) => n,
                    None => vstd::pervasive::unreached(),
                };
                match req.kind {
                    Kind::Role => {
                        let roles = String::from_str("roles");
                        assert(self.entries.deep_view().skip(0) =~= self.entries.deep_view());
                        let hit = match find_from(&self.entries, 0, &req.mount, &roles, name) {
                            Some(_) => true,
                            None => false,
                        };
                        if hit {
                            let serial = self.bump();
                            let mut fields: Fields = Vec::new();
                            fields.push((String::from_str("username"), Value::Text(name.clone())));
                            fields.push(
                                (String::from_str("password"), Value::Text(fresh_password(serial))),
                            );
                            assert(fields.deep_view() =~= role_cred_fields(
                                req.spec_name(),
                                serial,
                            ));
                            WireResponse { status: 200, fields }
                        } else {
                            let fields: Fields = Vec::new();
                            assert(fields.deep_view() =~= Seq::<(Seq<char>, ValueView)>::empty());
                            WireResponse { status: 404, fields }
                        }
                    },
                    _ => {
                        let sc = String::from_str("static-creds");
                        assert(self.entries.deep_view().skip(0) =~= self.entries.deep_view());
                        match find_from(&self.entries, 0, &req.mount, &sc, name) {
                            Some(f) => {
                                let fields = copy_fields(f);
                                WireResponse { status: 200, fields }
                            },
                            None => {
                                let fields: Fields = Vec::new();
                                assert(fields.deep_view() =~= Seq::<(Seq<char>, ValueView)>::empty());
                                WireResponse { status: 404, fields }
                            },
                        }
                    },
                }
            },
        }
    }
}

} // verus!
