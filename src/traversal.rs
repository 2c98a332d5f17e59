//! The traversal that synthesized accept code performs, over a model of the
//! visited values, and the calls it makes on the visitor.

use vstd::prelude::*;
use crate::naming::{method_name, prefixed_fn_ident};
use crate::parse::{ConfView, VisitorTraitConf};

verus! {

/// A value of a type that accept code can traverse.
#[derive(Debug)]
pub enum Value {
    /// A value of a record, with its field values in declaration order.
    Record { entity: String, fields: Vec<Value> },
    /// A value of a variant group: the active variant and its field values.
    Variant { entity: String, variant: String, fields: Vec<Value> },
    /// A slice, an array or a `Vec`.
    Sequence(Vec<Value>),
    /// A `HashSet`, its elements in the set's own iteration order.
    Unordered(Vec<Value>),
    /// An `Option`.
    Optional(Option<Box<Value>>),
    /// A `Box`, `Rc` or `Arc`.
    Pointer(Box<Value>),
    /// A shared reference.
    Borrowed(Box<Value>),
    /// A value of a leaf kind, written out.
    Leaf(String),
}

/// A visitor call: the method's name and the value it is handed.
pub type Call = (Seq<char>, Value);

/// The hook call with an optional prefix on value `v` of entity `e`: none
/// without a prefix.
pub open spec fn hook(prefix: Option<Seq<char>>, e: Seq<char>, v: Value) -> Seq<Call> {
    match prefix {
        Some(p) => seq![(method_name(p, e), v)],
        None => Seq::empty(),
    }
}

/// The visitor calls that accepting `v` makes, in order, under configuration `c`.
pub open spec fn trace(c: ConfView, v: Value) -> Seq<Call>
    decreases v,
{
    match v {
        Value::Record { entity, fields } => hook(c.enter, entity@, v) + trace_all(c, fields@) + hook(
            c.leave,
            entity@,
            v,
        ),
        Value::Variant { entity, variant, fields } => hook(c.enter, entity@, v) + trace_all(c, fields@)
            + hook(c.leave, entity@, v),
        Value::Sequence(items) => trace_all(c, items@),
        Value::Unordered(items) => trace_all(c, items@),
        Value::Optional(o) => match o {
            Some(b) => trace(c, *b),
            None => Seq::empty(),
        },
        Value::Pointer(b) => trace(c, *b),
        Value::Borrowed(b) => trace(c, *b),
        Value::Leaf(_) => Seq::empty(),
    }
}

/// The calls of accepting each of `vs` in turn.
pub open spec fn trace_all(c: ConfView, vs: Seq<Value>) -> Seq<Call>
    decreases vs,
{
    if vs.len() == 0 {
        Seq::empty()
    } else {
        trace_all(c, vs.drop_last()) + trace(c, vs.last())
    }
}

/// The view of recorded calls.
pub open spec fn calls_of(v: Seq<(String, &Value)>) -> Seq<Call> {
    v.map_values(|x: (String, &Value)| (x.0@, *x.1))
}

fn call_hook<'a>(prefix: &Option<String>, entity: &String, v: &'a Value, calls: &mut Vec<(String, &'a Value)>)
    ensures
        calls_of(final(calls)@) == calls_of(old(calls)@) + hook(crate::parse::opt_view(*prefix), entity@, *v),
{
    let ghost before = calls_of(calls@);
    if let Some(p) = prefix {
        let m = prefixed_fn_ident(p.as_str(), entity.as_str());
        calls.push((m, v));
    }
    assert(calls_of(calls@) =~= before + hook(crate::parse::opt_view(*prefix), entity@, *v));
}

fn accept_all<'a>(c: &VisitorTraitConf, vs: &'a Vec<Value>, calls: &mut Vec<(String, &'a Value)>)
    ensures
        calls_of(final(calls)@) == calls_of(old(calls)@) + trace_all(c@, vs@),
    decreases vs, 0nat,
{
    let ghost start = calls_of(calls@);
    let mut i: usize = 0;
    assert(vs@.take(0) =~= Seq::<Value>::empty());
    assert(start =~= start + trace_all(c@, vs@.take(0)));
    while i < vs.len()
        invariant
            i <= vs.len(),
            calls_of(calls@) == start + trace_all(c@, vs@.take(i as int)),
        decreases vs.len() - i,
    {
        accept_into(c, &vs[i], calls);
        assert(vs@.take(i + 1).drop_last() =~= vs@.take(i as int));
        assert(vs@.take(i + 1).last() == vs@[i as int]);
        assert(calls_of(calls@) =~= start + trace_all(c@, vs@.take(i + 1)));
        i += 1;
    }
    assert(vs@.take(i as int) =~= vs@);
}

fn accept_into<'a>(c: &VisitorTraitConf, v: &'a Value, calls: &mut Vec<(String, &'a Value)>)
    ensures
        calls_of(final(calls)@) == calls_of(old(calls)@) + trace(c@, *v),
    decreases v, 1nat,
{
    let ghost start = calls_of(calls@);
    match v {
        Value::Record { entity, fields } => {
            call_hook(&c.enter, entity, v, calls);
            accept_all(c, fields, calls);
            call_hook(&c.leave, entity, v, calls);
            assert(calls_of(calls@) =~= start + trace(c@, *v));
        },
        Value::Variant { entity, variant, fields } => {
            call_hook(&c.enter, entity, v, calls);
            accept_all(c, fields, calls);
            call_hook(&c.leave, entity, v, calls);
            assert(calls_of(calls@) =~= start + trace(c@, *v));
        },
        Value::Sequence(items) => accept_all(c, items, calls),
        Value::Unordered(items) => accept_all(c, items, calls),
        Value::Optional(o) => match o {
            Some(b) => accept_into(c, b, calls),
            None => {
                assert(calls_of(calls@) =~= start + trace(c@, *v));
            },
        },
        Value::Pointer(b) => accept_into(c, b, calls),
        Value::Borrowed(b) => accept_into(c, b, calls),
        Value::Leaf(_) => {
            assert(calls_of(calls@) =~= start + trace(c@, *v));
        },
    }
}

/// Whether no record or variant-group value occurs anywhere in `v`.
pub open spec fn entity_free(v: Value) -> bool
    decreases v,
{
    match v {
        Value::Record { .. } => false,
        Value::Variant { .. } => false,
        Value::Sequence(items) => forall|i: int| 0 <= i < items.len() ==> entity_free(#[trigger] items@[i]),
        Value::Unordered(items) => forall|i: int| 0 <= i < items.len() ==> entity_free(#[trigger] items@[i]),
        Value::Optional(o) => match o {
            Some(b) => entity_free(*b),
            None => true,
        },
        Value::Pointer(b) => entity_free(*b),
        Value::Borrowed(b) => entity_free(*b),
        Value::Leaf(_) => true,
    }
}

/// Whether `v` is an empty sequence, an empty set or an absent optional value.
pub open spec fn is_empty_container(v: Value) -> bool {
    match v {
        Value::Sequence(items) => items.len() == 0,
        Value::Unordered(items) => items.len() == 0,
        Value::Optional(o) => o is None,
        _ => false,
    }
}

/// Accepting a list of values one after another makes the calls of each value
/// in list order.
pub proof fn lemma_trace_all_append(c: ConfView, a: Seq<Value>, b: Seq<Value>)
    ensures
        trace_all(c, a + b) == trace_all(c, a) + trace_all(c, b),
    decreases b.len(),
{
    if b.len() == 0 {
        assert(a + b =~= a);
        assert(trace_all(c, a) + trace_all(c, b) =~= trace_all(c, a));
    } else {
        assert((a + b).drop_last() =~= a + b.drop_last());
        assert((a + b).last() == b.last());
        lemma_trace_all_append(c, a, b.drop_last());
        assert(trace_all(c, a + b) =~= trace_all(c, a) + trace_all(c, b));
    }
}

/// The calls of a list of values are those of the values before position
/// `i`, then those of the value at `i`, then those of the values after it.
pub proof fn lemma_trace_all_split(c: ConfView, vs: Seq<Value>, i: int)
    requires
        0 <= i < vs.len(),
    ensures
        trace_all(c, vs) == trace_all(c, vs.take(i)) + trace(c, vs[i]) + trace_all(c, vs.skip(i + 1)),
{
    let a = vs.take(i);
    let b = vs.skip(i + 1);
    assert(vs =~= a + seq![vs[i]] + b);
    lemma_trace_all_append(c, a + seq![vs[i]], b);
    lemma_trace_all_append(c, a, seq![vs[i]]);
    assert(seq![vs[i]].drop_last() =~= Seq::<Value>::empty());
    assert(seq![vs[i]].last() == vs[i]);
    assert(trace_all(c, Seq::<Value>::empty()) =~= Seq::<Call>::empty());
    assert(trace_all(c, seq![vs[i]]) =~= trace(c, vs[i]));
}

/// With a leave hook only, a record's accept makes the calls of its fields in
/// declaration order (those of each field strictly after those of the fields
/// before it) and then one call of its own leave hook, and nothing else.
pub proof fn lemma_leave_only_post_order(c: ConfView, v: Value)
    requires
        c.enter is None,
        c.leave is Some,
        v is Record,
    ensures
        trace(c, v) == trace_all(c, v->Record_fields@) + seq![(method_name(c.leave->0, v->Record_entity@), v)],
        forall|i: int|
            0 <= i < v->Record_fields@.len() ==> trace(c, v) == trace_all(c, v->Record_fields@.take(i))
                + trace(c, #[trigger] v->Record_fields@[i]) + trace_all(c, v->Record_fields@.skip(i + 1))
                + seq![(method_name(c.leave->0, v->Record_entity@), v)],
{
    assert(hook(c.enter, v->Record_entity@, v) =~= Seq::<Call>::empty());
    assert(trace(c, v) =~= trace_all(c, v->Record_fields@) + seq![(method_name(c.leave->0, v->Record_entity@), v)]);
    assert forall|i: int| 0 <= i < v->Record_fields@.len() implies trace(c, v) == trace_all(
        c,
        v->Record_fields@.take(i),
    ) + trace(c, #[trigger] v->Record_fields@[i]) + trace_all(c, v->Record_fields@.skip(i + 1)) + seq![
        (method_name(c.leave->0, v->Record_entity@), v),
    ] by {
        lemma_trace_all_split(c, v->Record_fields@, i);
    }
}

/// With both hooks, the enter call of a record or variant-group value comes
/// first, its leave call comes last, and every call made for its descendants
/// lies between the two.
pub proof fn lemma_enter_leave_nesting(c: ConfView, v: Value)
    requires
        c.enter is Some,
        c.leave is Some,
        v is Record || v is Variant,
    ensures
        v is Record ==> trace(c, v) == seq![(method_name(c.enter->0, v->Record_entity@), v)] + trace_all(
            c,
            v->Record_fields@,
        ) + seq![(method_name(c.leave->0, v->Record_entity@), v)],
        v is Variant ==> trace(c, v) == seq![(method_name(c.enter->0, v->Variant_entity@), v)] + trace_all(
            c,
            v->Variant_fields@,
        ) + seq![(method_name(c.leave->0, v->Variant_entity@), v)],
{
}

/// Values of leaf kinds, and containers that hold only such values, make no
/// call at all.
pub proof fn lemma_leaves_make_no_calls(c: ConfView, v: Value)
    requires
        entity_free(v),
    ensures
        trace(c, v) == Seq::<Call>::empty(),
    decreases v,
{
    match v {
        Value::Sequence(items) => lemma_leaf_list(c, items@),
        Value::Unordered(items) => lemma_leaf_list(c, items@),
        Value::Optional(o) => match o {
            Some(b) => lemma_leaves_make_no_calls(c, *b),
            None => {},
        },
        Value::Pointer(b) => lemma_leaves_make_no_calls(c, *b),
        Value::Borrowed(b) => lemma_leaves_make_no_calls(c, *b),
        _ => {},
    }
}

proof fn lemma_leaf_list(c: ConfView, vs: Seq<Value>)
    requires
        forall|i: int| 0 <= i < vs.len() ==> entity_free(#[trigger] vs[i]),
    ensures
        trace_all(c, vs) == Seq::<Call>::empty(),
    decreases vs,
{
    if vs.len() > 0 {
        assert(entity_free(vs[vs.len() - 1]));
        lemma_leaf_list(c, vs.drop_last());
        lemma_leaves_make_no_calls(c, vs.last());
        assert(trace_all(c, vs) =~= Seq::<Call>::empty());
    }
}

/// An empty sequence, an empty set or an absent optional field makes no call,
/// and the calls of its sibling fields stay as they are.
pub proof fn lemma_empty_field_is_silent(c: ConfView, fields: Seq<Value>, i: int)
    requires
        0 <= i < fields.len(),
        is_empty_container(fields[i]),
    ensures
        trace(c, fields[i]) == Seq::<Call>::empty(),
        trace_all(c, fields) == trace_all(c, fields.remove(i)),
{
    let v = fields[i];
    match v {
        Value::Sequence(items) => {
            assert(items@.len() == 0);
            assert(trace(c, v) == trace_all(c, items@));
        },
        Value::Unordered(items) => {
            assert(items@.len() == 0);
            assert(trace(c, v) == trace_all(c, items@));
        },
        _ => {},
    }
    assert(trace(c, v) =~= Seq::<Call>::empty());
    let a = fields.take(i);
    let b = fields.skip(i + 1);
    assert(fields =~= a + seq![v] + b);
    assert(fields.remove(i) =~= a + b);
    lemma_trace_all_append(c, a + seq![v], b);
    lemma_trace_all_append(c, a, seq![v]);
    lemma_trace_all_append(c, a, b);
    assert(seq![v].drop_last() =~= Seq::<Value>::empty());
    assert(seq![v].last() == v);
    assert(trace_all(c, Seq::<Value>::empty()) =~= Seq::<Call>::empty());
    assert(trace_all(c, seq![v]) =~= Seq::<Call>::empty());
    assert(trace_all(c, a) + Seq::<Call>::empty() =~= trace_all(c, a));
}

/// Owning and shared pointers, and references, are transparent: accepting the
/// wrapper makes exactly the calls of accepting the value it points to.
pub proof fn lemma_pointers_are_transparent(c: ConfView, v: Value)
    requires
        v is Pointer || v is Borrowed,
    ensures
        v is Pointer ==> trace(c, v) == trace(c, *v->Pointer_0),
        v is Borrowed ==> trace(c, v) == trace(c, *v->Borrowed_0),
{
}

/// A variant-group value makes one leave call for itself, last, after the
/// calls of the active variant's fields alone.
pub proof fn lemma_variant_leaves_once(c: ConfView, v: Value)
    requires
        c.leave is Some,
        v is Variant,
    ensures
        trace(c, v) == hook(c.enter, v->Variant_entity@, v) + trace_all(c, v->Variant_fields@) + seq![
            (method_name(c.leave->0, v->Variant_entity@), v),
        ],
{
}

/// The visitor calls, in order, that the accept code synthesized for
/// configuration `conf` makes when it traverses `value`: each hook's name and
/// the value handed to it.
pub fn accept_trace<'a>(conf: &VisitorTraitConf, value: &'a Value) -> (r: Vec<(String, &'a Value)>)
    ensures
        calls_of(r@) == trace(conf@, *value),
{
    let mut calls: Vec<(String, &'a Value)> = Vec::new();
    assert(calls_of(calls@) =~= Seq::<Call>::empty());
    accept_into(conf, value, &mut calls);
    assert(calls_of(calls@) =~= trace(conf@, *value));
    calls
}

} // verus!
