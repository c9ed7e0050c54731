//! Component-model values, and when a value has a type.
use vstd::prelude::*;

use crate::analysed_type::{same_boxed_type, same_names, same_optional_type, same_type, AnalysedType};

verus! {

broadcast use vstd::std_specs::vec::group_vec_axioms;

/// The location of a resource.
#[derive(Debug, Clone, PartialEq, Eq)]
pub struct Uri {
    pub value: String,
}

/// A component-model value.
///
/// Floating-point numbers are held by their IEEE-754 bit patterns: `F32`
/// holds the bits of an `f32`, `F64` those of an `f64`.
#[derive(Debug, PartialEq, Eq)]
pub enum Value {
    Bool(bool),
    U8(u8),
    U16(u16),
    U32(u32),
    U64(u64),
    S8(i8),
    S16(i16),
    S32(i32),
    S64(i64),
    F32(u32),
    F64(u64),
    Char(char),
    String(String),
    List(Vec<Value>),
    Tuple(Vec<Value>),
    Record(Vec<Value>),
    Variant { case_idx: u32, case_value: Option<Box<Value>> },
    Enum(u32),
    Flags(Vec<bool>),
    Option(Option<Box<Value>>),
    Result(Result<Option<Box<Value>>, Option<Box<Value>>>),
    Handle { uri: Uri, resource_id: u64 },
}

/// `v` is a value of type `t`.
///
/// Scalars match their scalar type. A list matches a list type when every
/// item matches the item type; a tuple or record when it has one value per
/// item or field, each of the matching type; a variant when its case index
/// names a case and its payload is present exactly when the case has a payload
/// type, and then matches it; an enum when its index names a case; flags when
/// there is one flag per name; options and results when their payloads match.
pub open spec fn has_type(v: Value, t: AnalysedType) -> bool
    decreases v,
{
    match v {
        Value::Bool(_) => t is Bool,
        Value::U8(_) => t is U8,
        Value::U16(_) => t is U16,
        Value::U32(_) => t is U32,
        Value::U64(_) => t is U64,
        Value::S8(_) => t is S8,
        Value::S16(_) => t is S16,
        Value::S32(_) => t is S32,
        Value::S64(_) => t is S64,
        Value::F32(_) => t is F32,
        Value::F64(_) => t is F64,
        Value::Char(_) => t is Chr,
        Value::String(_) => t is Str,
        Value::List(items) => match t {
            AnalysedType::List(l) => forall|i: int|
                0 <= i < items.len() ==> has_type(#[trigger] items@[i], *l.inner),
            _ => false,
        },
        Value::Tuple(items) => match t {
            AnalysedType::Tuple(tt) => {
                &&& items.len() == tt.items.len()
                &&& forall|i: int|
                    0 <= i < items.len() ==> has_type(#[trigger] items@[i], tt.items@[i])
            },
            _ => false,
        },
        Value::Record(values) => match t {
            AnalysedType::Record(r) => {
                &&& values.len() == r.fields.len()
                &&& forall|i: int|
                    0 <= i < values.len() ==> has_type(#[trigger] values@[i], r.fields@[i].typ)
            },
            _ => false,
        },
        Value::Variant { case_idx, case_value } => match t {
            AnalysedType::Variant(tv) => {
                &&& case_idx < tv.cases.len()
                &&& match (case_value, tv.cases@[case_idx as int].typ) {
                    (None, None) => true,
                    (Some(payload), Some(case_type)) => has_type(*payload, case_type),
                    _ => false,
                }
            },
            _ => false,
        },
        Value::Enum(idx) => match t {
            AnalysedType::Enum(te) => idx < te.cases.len(),
            _ => false,
        },
        Value::Flags(flags) => match t {
            AnalysedType::Flags(tf) => flags.len() == tf.names.len(),
            _ => false,
        },
        Value::Option(o) => match t {
            AnalysedType::Option(to) => match o {
                None => true,
                Some(inner) => has_type(*inner, *to.inner),
            },
            _ => false,
        },
        Value::Result(r) => match t {
            AnalysedType::Result(tr) => match r {
                Ok(payload) => match (payload, tr.ok) {
                    (None, None) => true,
                    (Some(p), Some(pt)) => has_type(*p, *pt),
                    _ => false,
                },
                Err(payload) => match (payload, tr.err) {
                    (None, None) => true,
                    (Some(p), Some(pt)) => has_type(*p, *pt),
                    _ => false,
                },
            },
            _ => false,
        },
        Value::Handle { .. } => t is Handle,
    }
}

/// A value has a type exactly when it has every structurally equal type.
pub proof fn lemma_same_type_has_type(v: Value, a: AnalysedType, b: AnalysedType)
    requires
        same_type(a, b),
    ensures
        has_type(v, a) == has_type(v, b),
    decreases v,
{
    match v {
        Value::List(items) => {
            if let (AnalysedType::List(la), AnalysedType::List(lb)) = (a, b) {
                assert forall|i: int| 0 <= i < items.len() implies has_type(#[trigger] items@[i], *la.inner)
                    == has_type(items@[i], *lb.inner) by {
                    lemma_same_type_has_type(items@[i], *la.inner, *lb.inner);
                }
            }
        },
        Value::Tuple(items) => {
            if let (AnalysedType::Tuple(ta), AnalysedType::Tuple(tb)) = (a, b) {
                assert forall|i: int| 0 <= i < items.len() && i < ta.items.len() implies has_type(
                    #[trigger] items@[i],
                    ta.items@[i],
                ) == has_type(items@[i], tb.items@[i]) by {
                    lemma_same_type_has_type(items@[i], ta.items@[i], tb.items@[i]);
                }
            }
        },
        Value::Record(values) => {
            if let (AnalysedType::Record(ra), AnalysedType::Record(rb)) = (a, b) {
                assert forall|i: int| 0 <= i < values.len() && i < ra.fields.len() implies has_type(
                    #[trigger] values@[i],
                    ra.fields@[i].typ,
                ) == has_type(values@[i], rb.fields@[i].typ) by {
                    assert(ra.fields@[i].name@ == rb.fields@[i].name@);
                    lemma_same_type_has_type(values@[i], ra.fields@[i].typ, rb.fields@[i].typ);
                }
            }
        },
        Value::Variant { case_idx, case_value } => {
            if let (AnalysedType::Variant(va), AnalysedType::Variant(vb)) = (a, b) {
                if case_idx < va.cases.len() {
                    let i = case_idx as int;
                    assert(va.cases@[i].name@ == vb.cases@[i].name@);
                    assert(same_optional_type(va.cases@[i].typ, vb.cases@[i].typ));
                    if let (Some(p), Some(ta), Some(tb)) = (
                        case_value,
                        va.cases@[i].typ,
                        vb.cases@[i].typ,
                    ) {
                        lemma_same_type_has_type(*p, ta, tb);
                    }
                }
            }
        },
        Value::Enum(_) => {
            if let (AnalysedType::Enum(ea), AnalysedType::Enum(eb)) = (a, b) {
                assert(same_names(ea.cases@, eb.cases@));
            }
        },
        Value::Flags(_) => {
            if let (AnalysedType::Flags(fa), AnalysedType::Flags(fb)) = (a, b) {
                assert(same_names(fa.names@, fb.names@));
            }
        },
        Value::Option(o) => {
            if let (AnalysedType::Option(oa), AnalysedType::Option(ob), Some(inner)) = (a, b, o) {
                lemma_same_type_has_type(*inner, *oa.inner, *ob.inner);
            }
        },
        Value::Result(r) => {
            if let (AnalysedType::Result(ra), AnalysedType::Result(rb)) = (a, b) {
                assert(same_boxed_type(ra.ok, rb.ok));
                assert(same_boxed_type(ra.err, rb.err));
                match r {
                    Ok(Some(p)) => {
                        if let (Some(ta), Some(tb)) = (ra.ok, rb.ok) {
                            lemma_same_type_has_type(*p, *ta, *tb);
                        }
                    },
                    Err(Some(p)) => {
                        if let (Some(ta), Some(tb)) = (ra.err, rb.err) {
                            lemma_same_type_has_type(*p, *ta, *tb);
                        }
                    },
                    _ => {},
                }
            }
        },
        _ => {},
    }
}

/// A character value has the character type.
pub proof fn lemma_char_has_type(c: char, t: AnalysedType)
    requires
        t is Chr,
    ensures
        has_type(Value::Char(c), t),
{
}

/// Two optional boxed values are both absent, or both present and the same.
pub open spec fn same_boxed_value(a: Option<Box<Value>>, b: Option<Box<Value>>) -> bool
    decreases a,
{
    match (a, b) {
        (None, None) => true,
        (Some(x), Some(y)) => same_value(*x, *y),
        _ => false,
    }
}

/// Structural equality of values: the same case, with the same scalars,
/// strings and flags, and the same parts, all the way down.
pub open spec fn same_value(a: Value, b: Value) -> bool
    decreases a,
{
    match (a, b) {
        (Value::String(x), Value::String(y)) => x@ == y@,
        (Value::List(x), Value::List(y)) => {
            &&& x.len() == y.len()
            &&& forall|i: int| 0 <= i < x.len() ==> same_value(#[trigger] x@[i], y@[i])
        },
        (Value::Tuple(x), Value::Tuple(y)) => {
            &&& x.len() == y.len()
            &&& forall|i: int| 0 <= i < x.len() ==> same_value(#[trigger] x@[i], y@[i])
        },
        (Value::Record(x), Value::Record(y)) => {
            &&& x.len() == y.len()
            &&& forall|i: int| 0 <= i < x.len() ==> same_value(#[trigger] x@[i], y@[i])
        },
        (
            Value::Variant { case_idx: i, case_value: x },
            Value::Variant { case_idx: j, case_value: y },
        ) => i == j && same_boxed_value(x, y),
        (Value::Flags(x), Value::Flags(y)) => x@ == y@,
        (Value::Option(x), Value::Option(y)) => same_boxed_value(x, y),
        (Value::Result(Ok(x)), Value::Result(Ok(y))) => same_boxed_value(x, y),
        (Value::Result(Err(x)), Value::Result(Err(y))) => same_boxed_value(x, y),
        (Value::Result(_), Value::Result(_)) => false,
        (
            Value::Handle { uri: u, resource_id: i },
            Value::Handle { uri: w, resource_id: j },
        ) => u.value@ == w.value@ && i == j,
        (Value::List(_), _) | (Value::Tuple(_), _) | (Value::Record(_), _) | (Value::String(_), _)
        | (Value::Variant { .. }, _) | (Value::Flags(_), _) | (Value::Option(_), _)
        | (Value::Result(_), _) | (Value::Handle { .. }, _) => false,
        _ => a == b,
    }
}

fn duplicate_boxed(v: &Option<Box<Value>>) -> (r: Option<Box<Value>>)
    ensures
        same_boxed_value(r, *v),
    decreases *v,
{
    match v {
        Some(b) => {
            proof {
                assert(decreases_to!(*v => **b));
            }
            let r = Some(Box::new((**b).duplicate()));
            assert(same_boxed_value(r, *v));
            r
        },
        None => {
            assert(same_boxed_value(None, *v));
            None
        },
    }
}

fn duplicate_all(items: &Vec<Value>) -> (r: Vec<Value>)
    ensures
        r.len() == items.len(),
        forall|i: int| 0 <= i < items.len() ==> same_value(#[trigger] r@[i], items@[i]),
    decreases *items,
{
    let mut r: Vec<Value> = Vec::new();
    let mut i: usize = 0;
    while i < items.len()
        invariant
            i <= items.len(),
            r.len() == i,
            forall|j: int| 0 <= j < i ==> same_value(#[trigger] r@[j], items@[j]),
        decreases items.len() - i,
    {
        proof {
            assert(decreases_to!(*items => items@[i as int]));
        }
        r.push(items[i].duplicate());
        i = i + 1;
    }
    r
}

impl Value {
    /// A structurally equal copy of this value.
    pub fn duplicate(&self) -> (r: Value)
        ensures
            same_value(r, *self),
        decreases *self,
    {
        match self {
            Value::Bool(x) => Value::Bool(*x),
            Value::U8(x) => Value::U8(*x),
            Value::U16(x) => Value::U16(*x),
            Value::U32(x) => Value::U32(*x),
            Value::U64(x) => Value::U64(*x),
            Value::S8(x) => Value::S8(*x),
            Value::S16(x) => Value::S16(*x),
            Value::S32(x) => Value::S32(*x),
            Value::S64(x) => Value::S64(*x),
            Value::F32(x) => Value::F32(*x),
            Value::F64(x) => Value::F64(*x),
            Value::Char(x) => Value::Char(*x),
            Value::String(x) => Value::String(x.clone()),
            Value::List(items) => Value::List(duplicate_all(items)),
            Value::Tuple(items) => Value::Tuple(duplicate_all(items)),
            Value::Record(items) => Value::Record(duplicate_all(items)),
            Value::Variant { case_idx, case_value } => Value::Variant {
                case_idx: *case_idx,
                case_value: duplicate_boxed(case_value),
            },
            Value::Enum(x) => Value::Enum(*x),
            Value::Flags(x) => Value::Flags(x.clone()),
            Value::Option(x) => Value::Option(duplicate_boxed(x)),
            Value::Result(Ok(x)) => Value::Result(Ok(duplicate_boxed(x))),
            Value::Result(Err(x)) => Value::Result(Err(duplicate_boxed(x))),
            Value::Handle { uri, resource_id } => Value::Handle {
                uri: Uri { value: uri.value.clone() },
                resource_id: *resource_id,
            },
        }
    }
}

impl Clone for Value {
    /// A structurally equal copy of this value.
    fn clone(&self) -> (r: Self)
        ensures
            same_value(r, *self),
    {
        self.duplicate()
    }
}

} // verus!
