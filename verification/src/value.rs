//! Field values of request and response bodies.
//!
//! A body is an ordered list of `(key, value)` fields, the JSON-like subset
//! the database engine actually exchanges: text, unsigned numbers, flags and
//! lists of text.  Lookup takes the first field with a matching key.

use vstd::prelude::*;
use vstd::string::StringExecFns;

verus! {

/// A single body value.
#[derive(Debug, Clone, PartialEq)]
pub enum Value {
    Text(String),
    Number(u64),
    Flag(bool),
    List(Vec<String>),
}

/// Mathematical shape of a `Value`.
pub enum ValueView {
    Text(Seq<char>),
    Number(u64),
    Flag(bool),
    List(Seq<Seq<char>>),
}

impl DeepView for Value {
    type V = ValueView;

    open spec fn deep_view(&self) -> ValueView {
        match self {
            Value::Text(s) => ValueView::Text(s@),
            Value::Number(n) => ValueView::Number(*n),
            Value::Flag(b) => ValueView::Flag(*b),
            Value::List(items) => ValueView::List(items.deep_view()),
        }
    }
}

/// An executable body: ordered fields.
pub type Fields = Vec<(String, Value)>;

/// The mathematical shape of a body.
pub type FieldsView = Seq<(Seq<char>, ValueView)>;

/// The value of the first field named `key`, if any.
pub open spec fn field_lookup(fields: FieldsView, key: Seq<char>) -> Option<ValueView>
    decreases fields.len(),
{
    if fields.len() == 0 {
        None
    } else if fields[0].0 == key {
        Some(fields[0].1)
    } else {
        field_lookup(fields.drop_first(), key)
    }
}

/// Whether some field is named `key`.
pub open spec fn has_field(fields: FieldsView, key: Seq<char>) -> bool {
    field_lookup(fields, key) is Some
}

/// The body with the first field named `key` replaced by `value`, or with
/// `(key, value)` appended when no field carries that name.
pub open spec fn field_set(fields: FieldsView, key: Seq<char>, value: ValueView) -> FieldsView
    decreases fields.len(),
{
    if fields.len() == 0 {
        seq![(key, value)]
    } else if fields[0].0 == key {
        seq![(key, value)] + fields.drop_first()
    } else {
        seq![fields[0]] + field_set(fields.drop_first(), key, value)
    }
}

/// Lookup distributes over concatenation: the left part wins when it has the
/// key at all.
pub broadcast proof fn lemma_field_lookup_append(a: FieldsView, b: FieldsView, key: Seq<char>)
    ensures
        #[trigger] field_lookup(a + b, key) == if has_field(a, key) {
            field_lookup(a, key)
        } else {
            field_lookup(b, key)
        },
    decreases a.len(),
{
    if a.len() == 0 {
        assert(a + b =~= b);
    } else {
        assert((a + b).drop_first() =~= a.drop_first() + b);
        lemma_field_lookup_append(a.drop_first(), b, key);
    }
}

/// Lookup in a one-field body.
pub broadcast proof fn lemma_field_lookup_single(k: Seq<char>, v: ValueView, key: Seq<char>)
    ensures
        #[trigger] field_lookup(seq![(k, v)], key) == if k == key {
            Some(v)
        } else {
            None::<ValueView>
        },
{
    let s = seq![(k, v)];
    assert(s.drop_first() =~= Seq::<(Seq<char>, ValueView)>::empty());
    assert(field_lookup(Seq::<(Seq<char>, ValueView)>::empty(), key) is None);
}

/// After `field_set`, the set key reads back as the new value and every
/// other key reads as before.
pub proof fn lemma_field_set(fields: FieldsView, key: Seq<char>, value: ValueView, probe: Seq<char>)
    ensures
        field_lookup(field_set(fields, key, value), probe) == if probe == key {
            Some(value)
        } else {
            field_lookup(fields, probe)
        },
    decreases fields.len(),
{
    if fields.len() == 0 {
        lemma_field_lookup_single(key, value, probe);
    } else if fields[0].0 == key {
        lemma_field_lookup_append(seq![(key, value)], fields.drop_first(), probe);
        lemma_field_lookup_single(key, value, probe);
    } else {
        lemma_field_set(fields.drop_first(), key, value, probe);
        lemma_field_lookup_append(seq![fields[0]], field_set(fields.drop_first(), key, value), probe);
        assert(fields[0] == (fields[0].0, fields[0].1));
        lemma_field_lookup_single(fields[0].0, fields[0].1, probe);
        if probe != key && fields[0].0 != probe {
            assert(field_lookup(fields, probe) == field_lookup(fields.drop_first(), probe));
        }
    }
}

/// The body block an optional value contributes: one field when present,
/// nothing when absent.
pub open spec fn opt_field(key: Seq<char>, v: Option<ValueView>) -> FieldsView {
    match v {
        Some(v) => seq![(key, v)],
        None => Seq::empty(),
    }
}

/// An optional text value.
pub open spec fn opt_text(o: Option<Seq<char>>) -> Option<ValueView> {
    match o {
        Some(s) => Some(ValueView::Text(s)),
        None => None,
    }
}

/// An optional number value.
pub open spec fn opt_num(o: Option<u64>) -> Option<ValueView> {
    match o {
        Some(n) => Some(ValueView::Number(n)),
        None => None,
    }
}

/// An optional flag value.
pub open spec fn opt_flag(o: Option<bool>) -> Option<ValueView> {
    match o {
        Some(b) => Some(ValueView::Flag(b)),
        None => None,
    }
}

/// An optional list value.
pub open spec fn opt_list(o: Option<Seq<Seq<char>>>) -> Option<ValueView> {
    match o {
        Some(items) => Some(ValueView::List(items)),
        None => None,
    }
}

/// Lookup in an optional-value block.
pub broadcast proof fn lemma_field_lookup_opt_field(
    k: Seq<char>,
    v: Option<ValueView>,
    key: Seq<char>,
)
    ensures
        #[trigger] field_lookup(opt_field(k, v), key) == if k == key {
            v
        } else {
            None::<ValueView>
        },
        has_field(opt_field(k, v), key) == (k == key && v is Some),
{
    match v {
        Some(vv) => lemma_field_lookup_single(k, vv, key),
        None => {
            assert(field_lookup(Seq::<(Seq<char>, ValueView)>::empty(), key) is None);
        },
    }
}

/// Appends an optional text field to a body under construction.
pub fn push_opt_text(out: &mut Fields, key: &str, v: &Option<String>)
    ensures
        final(out).deep_view() == old(out).deep_view() + opt_field(key@, opt_text(v.deep_view())),
{
    match v {
        Some(s) => {
            out.push((String::from_str(key), Value::Text(s.clone())));
            assert(out.deep_view() =~= old(out).deep_view() + opt_field(
                key@,
                opt_text(v.deep_view()),
            ));
        },
        None => {
            assert(out.deep_view() =~= old(out).deep_view() + opt_field(
                key@,
                opt_text(v.deep_view()),
            ));
        },
    }
}

/// Appends an optional number field to a body under construction.
pub fn push_opt_num(out: &mut Fields, key: &str, v: &Option<u64>)
    ensures
        final(out).deep_view() == old(out).deep_view() + opt_field(key@, opt_num(*v)),
{
    match v {
        Some(n) => {
            out.push((String::from_str(key), Value::Number(*n)));
            assert(out.deep_view() =~= old(out).deep_view() + opt_field(key@, opt_num(*v)));
        },
        None => {
            assert(out.deep_view() =~= old(out).deep_view() + opt_field(key@, opt_num(*v)));
        },
    }
}

/// Appends an optional flag field to a body under construction.
pub fn push_opt_flag(out: &mut Fields, key: &str, v: &Option<bool>)
    ensures
        final(out).deep_view() == old(out).deep_view() + opt_field(key@, opt_flag(*v)),
{
    match v {
        Some(b) => {
            out.push((String::from_str(key), Value::Flag(*b)));
            assert(out.deep_view() =~= old(out).deep_view() + opt_field(key@, opt_flag(*v)));
        },
        None => {
            assert(out.deep_view() =~= old(out).deep_view() + opt_field(key@, opt_flag(*v)));
        },
    }
}

/// Appends an optional list field to a body under construction.
pub fn push_opt_list(out: &mut Fields, key: &str, v: &Option<Vec<String>>)
    ensures
        final(out).deep_view() == old(out).deep_view() + opt_field(key@, opt_list(v.deep_view())),
{
    match v {
        Some(items) => {
            let copy = copy_text_list(items);
            out.push((String::from_str(key), Value::List(copy)));
            assert(out.deep_view() =~= old(out).deep_view() + opt_field(
                key@,
                opt_list(v.deep_view()),
            ));
        },
        None => {
            assert(out.deep_view() =~= old(out).deep_view() + opt_field(
                key@,
                opt_list(v.deep_view()),
            ));
        },
    }
}

/// First field named `key` in `fields` at position `i` or later.
fn lookup_from<'a>(fields: &'a Fields, i: usize, key: &String) -> (r: Option<&'a Value>)
    requires
        i <= fields.len(),
    ensures
        (match r {
            Some(v) => field_lookup(
                fields.deep_view().skip(i as int),
                key@,
            ) == Some(v.deep_view()),
            None => field_lookup(fields.deep_view().skip(i as int), key@) is None,
        }),
    decreases fields.len() - i,
{
    if i == fields.len() {
        assert(fields.deep_view().skip(i as int) =~= Seq::<(Seq<char>, ValueView)>::empty());
        None
    } else {
        let entry = &fields[i];
        assert(fields.deep_view().skip(i as int)[0] == fields.deep_view()[i as int]);
        if entry.0 == *key {
            Some(&entry.1)
        } else {
            let r = lookup_from(fields, i + 1, key);
            assert(fields.deep_view().skip(i as int).drop_first() =~= fields.deep_view().skip(
                i as int + 1,
            ));
            r
        }
    }
}

/// The value of the first field named `key`, if any.
pub fn lookup<'a>(fields: &'a Fields, key: &String) -> (r: Option<&'a Value>)
    ensures
        (match r {
            Some(v) => field_lookup(fields.deep_view(), key@) == Some(v.deep_view()),
            None => field_lookup(fields.deep_view(), key@) is None,
        }),
{
    let r = lookup_from(fields, 0, key);
    assert(fields.deep_view().skip(0) =~= fields.deep_view());
    r
}

/// An owned copy of a value, equal to the original.
pub fn copy_value(v: &Value) -> (r: Value)
    ensures
        r.deep_view() == v.deep_view(),
{
    match v {
        Value::Text(s) => Value::Text(s.clone()),
        Value::Number(n) => Value::Number(*n),
        Value::Flag(b) => Value::Flag(*b),
        Value::List(items) => {
            let copy = copy_text_list(items);
            Value::List(copy)
        },
    }
}

/// An owned copy of a list of strings, equal to the original.
pub fn copy_text_list(items: &Vec<String>) -> (r: Vec<String>)
    ensures
        r.deep_view() == items.deep_view(),
        r@ == items@,
{
    let mut out: Vec<String> = Vec::new();
    assert(out@ =~= items@.take(0));
    let mut i: usize = 0;
    while i < items.len()
        invariant
            i <= items.len(),
            out@ == items@.take(i as int),
        decreases items.len() - i,
    {
        out.push(items[i].clone());
        assert(out@ =~= items@.take(i as int + 1));
        i = i + 1;
    }
    assert(out@ =~= items@);
    assert(out.deep_view() =~= items.deep_view());
    out
}

/// An owned copy of a body, equal to the original field for field.
pub fn copy_fields(fields: &Fields) -> (r: Fields)
    ensures
        r.deep_view() == fields.deep_view(),
{
    let mut out: Fields = Vec::new();
    assert(out.deep_view() =~= fields.deep_view().take(0));
    let mut i: usize = 0;
    while i < fields.len()
        invariant
            i <= fields.len(),
            out.len() == i,
            out.deep_view() == fields.deep_view().take(i as int),
        decreases fields.len() - i,
    {
        let entry = &fields[i];
        let cloned_key = entry.0.clone();
        let copied = copy_value(&entry.1);
        assert(cloned_key == entry.0);
        assert(copied.deep_view() == entry.1.deep_view());
        let pair = (cloned_key, copied);
        assert(pair.deep_view() == (entry.0@, entry.1.deep_view()));
        out.push(pair);
        assert(out@.len() == i + 1);
        assert(fields@[i as int].deep_view() == (entry.0@, entry.1.deep_view()));
        assert(out@[i as int].deep_view() == fields@[i as int].deep_view());
        assert(out.deep_view() =~= fields.deep_view().take(i as int + 1));
        i = i + 1;
    }
    assert(out.deep_view() =~= fields.deep_view());
    out
}

/// The body with the first field named `key` replaced by `value`, or with
/// the pair appended when the key is absent.
pub fn set_field(fields: Fields, key: String, value: Value) -> (r: Fields)
    ensures
        r.deep_view() == field_set(fields.deep_view(), key@, value.deep_view()),
    decreases fields.len(),
{
    let mut fields = fields;
    if fields.len() == 0 {
        fields.push((key, value));
        assert(fields.deep_view() =~= seq![(key@, value.deep_view())]);
        fields
    } else if fields[0].0 == key {
        let ghost pre = fields.deep_view();
        let _ = fields.remove(0);
        fields.insert(0, (key, value));
        assert(fields.deep_view() =~= seq![(key@, value.deep_view())] + pre.drop_first());
        fields
    } else {
        let ghost pre = fields.deep_view();
        let head = fields.remove(0);
        assert(fields.deep_view() =~= pre.drop_first());
        let mut rest = set_field(fields, key, value);
        rest.insert(0, head);
        assert(rest.deep_view() =~= seq![pre[0]] + field_set(
            pre.drop_first(),
            key@,
            value.deep_view(),
        ));
        rest
    }
}

} // verus!
