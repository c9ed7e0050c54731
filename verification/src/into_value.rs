//! How Rust values convert into component-model values.
use vstd::prelude::*;

use crate::analysed_type::{self as ty, same_boxed_type, same_type, AnalysedType};
use crate::value::{has_type, lemma_char_has_type, same_boxed_value, same_value, Value};
use crate::platform::{
    duration_as_nanos, duration_nanos, hash_map_entries, instant_elapsed, lists_entries, uuid_text, uuid_to_string,
    Uuid,
};
use crate::value_and_type::IntoValue;
use std::collections::hash_map::RandomState;
use std::collections::HashMap;
use std::time::{Duration, Instant};
use vstd::std_specs::hash::{builds_valid_hashers, obeys_key_model};

verus! {

broadcast use vstd::std_specs::vec::group_vec_axioms;

impl IntoValue for u8 {
    open spec fn is_value(self, v: Value) -> bool {
        v == Value::U8(self)
    }

    open spec fn is_type(t: AnalysedType) -> bool {
        t is U8
    }

    open spec fn converts_deterministically() -> bool {
        true
    }

    proof fn lemma_is_value_fixed(self, v: Value, w: Value) {
    }

    proof fn lemma_is_type_fixed(a: AnalysedType, b: AnalysedType) {
    }

    fn into_value(self) -> (v: Value) {
        Value::U8(self)
    }

    fn get_type() -> (t: AnalysedType) {
        ty::u8()
    }
}

impl IntoValue for u16 {
    open spec fn is_value(self, v: Value) -> bool {
        v == Value::U16(self)
    }

    open spec fn is_type(t: AnalysedType) -> bool {
        t is U16
    }

    open spec fn converts_deterministically() -> bool {
        true
    }

    proof fn lemma_is_value_fixed(self, v: Value, w: Value) {
    }

    proof fn lemma_is_type_fixed(a: AnalysedType, b: AnalysedType) {
    }

    fn into_value(self) -> (v: Value) {
        Value::U16(self)
    }

    fn get_type() -> (t: AnalysedType) {
        ty::u16()
    }
}

impl IntoValue for u32 {
    open spec fn is_value(self, v: Value) -> bool {
        v == Value::U32(self)
    }

    open spec fn is_type(t: AnalysedType) -> bool {
        t is U32
    }

    open spec fn converts_deterministically() -> bool {
        true
    }

    proof fn lemma_is_value_fixed(self, v: Value, w: Value) {
    }

    proof fn lemma_is_type_fixed(a: AnalysedType, b: AnalysedType) {
    }

    fn into_value(self) -> (v: Value) {
        Value::U32(self)
    }

    fn get_type() -> (t: AnalysedType) {
        ty::u32()
    }
}

impl IntoValue for u64 {
    open spec fn is_value(self, v: Value) -> bool {
        v == Value::U64(self)
    }

    open spec fn is_type(t: AnalysedType) -> bool {
        t is U64
    }

    open spec fn converts_deterministically() -> bool {
        true
    }

    proof fn lemma_is_value_fixed(self, v: Value, w: Value) {
    }

    proof fn lemma_is_type_fixed(a: AnalysedType, b: AnalysedType) {
    }

    fn into_value(self) -> (v: Value) {
        Value::U64(self)
    }

    fn get_type() -> (t: AnalysedType) {
        ty::u64()
    }
}

impl IntoValue for i8 {
    open spec fn is_value(self, v: Value) -> bool {
        v == Value::S8(self)
    }

    open spec fn is_type(t: AnalysedType) -> bool {
        t is S8
    }

    open spec fn converts_deterministically() -> bool {
        true
    }

    proof fn lemma_is_value_fixed(self, v: Value, w: Value) {
    }

    proof fn lemma_is_type_fixed(a: AnalysedType, b: AnalysedType) {
    }

    fn into_value(self) -> (v: Value) {
        Value::S8(self)
    }

    fn get_type() -> (t: AnalysedType) {
        ty::s8()
    }
}

impl IntoValue for i16 {
    open spec fn is_value(self, v: Value) -> bool {
        v == Value::S16(self)
    }

    open spec fn is_type(t: AnalysedType) -> bool {
        t is S16
    }

    open spec fn converts_deterministically() -> bool {
        true
    }

    proof fn lemma_is_value_fixed(self, v: Value, w: Value) {
    }

    proof fn lemma_is_type_fixed(a: AnalysedType, b: AnalysedType) {
    }

    fn into_value(self) -> (v: Value) {
        Value::S16(self)
    }

    fn get_type() -> (t: AnalysedType) {
        ty::s16()
    }
}

impl IntoValue for i32 {
    open spec fn is_value(self, v: Value) -> bool {
        v == Value::S32(self)
    }

    open spec fn is_type(t: AnalysedType) -> bool {
        t is S32
    }

    open spec fn converts_deterministically() -> bool {
        true
    }

    proof fn lemma_is_value_fixed(self, v: Value, w: Value) {
    }

    proof fn lemma_is_type_fixed(a: AnalysedType, b: AnalysedType) {
    }

    fn into_value(self) -> (v: Value) {
        Value::S32(self)
    }

    fn get_type() -> (t: AnalysedType) {
        ty::s32()
    }
}

impl IntoValue for i64 {
    open spec fn is_value(self, v: Value) -> bool {
        v == Value::S64(self)
    }

    open spec fn is_type(t: AnalysedType) -> bool {
        t is S64
    }

    open spec fn converts_deterministically() -> bool {
        true
    }

    proof fn lemma_is_value_fixed(self, v: Value, w: Value) {
    }

    proof fn lemma_is_type_fixed(a: AnalysedType, b: AnalysedType) {
    }

    fn into_value(self) -> (v: Value) {
        Value::S64(self)
    }

    fn get_type() -> (t: AnalysedType) {
        ty::s64()
    }
}

impl IntoValue for bool {
    open spec fn is_value(self, v: Value) -> bool {
        v == Value::Bool(self)
    }

    open spec fn is_type(t: AnalysedType) -> bool {
        t is Bool
    }

    open spec fn converts_deterministically() -> bool {
        true
    }

    proof fn lemma_is_value_fixed(self, v: Value, w: Value) {
    }

    proof fn lemma_is_type_fixed(a: AnalysedType, b: AnalysedType) {
    }

    fn into_value(self) -> (v: Value) {
        Value::Bool(self)
    }

    fn get_type() -> (t: AnalysedType) {
        ty::bool()
    }
}

impl IntoValue for char {
    open spec fn is_value(self, v: Value) -> bool {
        v == Value::Char(self)
    }

    open spec fn is_type(t: AnalysedType) -> bool {
        t is Chr
    }

    open spec fn converts_deterministically() -> bool {
        true
    }

    proof fn lemma_is_value_fixed(self, v: Value, w: Value) {
    }

    proof fn lemma_is_type_fixed(a: AnalysedType, b: AnalysedType) {
    }

    fn into_value(self) -> (v: Value) {
        let v = Value::Char(self);
        proof {
            assert forall|t: AnalysedType| t is Chr implies has_type(v, t) by {
                lemma_char_has_type(self, t);
            }
        }
        v
    }

    fn get_type() -> (t: AnalysedType) {
        ty::chr()
    }
}

impl IntoValue for String {
    open spec fn is_value(self, v: Value) -> bool {
        v matches Value::String(s) && s@ == self@
    }

    open spec fn is_type(t: AnalysedType) -> bool {
        t is Str
    }

    open spec fn converts_deterministically() -> bool {
        true
    }

    proof fn lemma_is_value_fixed(self, v: Value, w: Value) {
    }

    proof fn lemma_is_type_fixed(a: AnalysedType, b: AnalysedType) {
    }

    fn into_value(self) -> (v: Value) {
        Value::String(self)
    }

    fn get_type() -> (t: AnalysedType) {
        ty::str()
    }
}

impl<'a> IntoValue for &'a str {
    open spec fn is_value(self, v: Value) -> bool {
        v matches Value::String(s) && s@ == self@
    }

    open spec fn is_type(t: AnalysedType) -> bool {
        t is Str
    }

    open spec fn converts_deterministically() -> bool {
        true
    }

    proof fn lemma_is_value_fixed(self, v: Value, w: Value) {
    }

    proof fn lemma_is_type_fixed(a: AnalysedType, b: AnalysedType) {
    }

    fn into_value(self) -> (v: Value) {
        Value::String(self.to_owned())
    }

    fn get_type() -> (t: AnalysedType) {
        ty::str()
    }
}

impl<S: IntoValue, E: IntoValue> IntoValue for Result<S, E> {
    open spec fn is_value(self, v: Value) -> bool {
        match self {
            Ok(s) => v matches Value::Result(Ok(Some(b))) && s.is_value(*b),
            Err(e) => v matches Value::Result(Err(Some(b))) && e.is_value(*b),
        }
    }

    open spec fn is_type(t: AnalysedType) -> bool {
        &&& t matches AnalysedType::Result(tr)
        &&& tr.ok matches Some(ok) && S::is_type(*ok)
        &&& tr.err matches Some(err) && E::is_type(*err)
    }

    open spec fn converts_deterministically() -> bool {
        S::converts_deterministically() && E::converts_deterministically()
    }

    proof fn lemma_is_value_fixed(self, v: Value, w: Value) {
        if Self::converts_deterministically() {
            match (self, v, w) {
                (Ok(s), Value::Result(Ok(Some(p))), Value::Result(Ok(Some(q)))) => {
                    s.lemma_is_value_fixed(*p, *q);
                    assert(same_boxed_value(Some(p), Some(q)));
                },
                (Err(e), Value::Result(Err(Some(p))), Value::Result(Err(Some(q)))) => {
                    e.lemma_is_value_fixed(*p, *q);
                    assert(same_boxed_value(Some(p), Some(q)));
                },
                _ => {},
            }
        }
    }

    proof fn lemma_is_type_fixed(a: AnalysedType, b: AnalysedType) {
        if let AnalysedType::Result(rb) = b {
            let ra = a->Result_0;
            assert(same_boxed_type(rb.ok, ra.ok) == (rb.ok matches Some(bo) && same_type(
                *bo,
                *ra.ok->Some_0,
            )));
            assert(same_boxed_type(rb.err, ra.err) == (rb.err matches Some(be) && same_type(
                *be,
                *ra.err->Some_0,
            )));
            if let (Some(bo), Some(be)) = (rb.ok, rb.err) {
                S::lemma_is_type_fixed(*ra.ok->Some_0, *bo);
                E::lemma_is_type_fixed(*ra.err->Some_0, *be);
            }
        }
    }

    fn into_value(self) -> (v: Value) {
        match self {
            Ok(s) => Value::Result(Ok(Some(Box::new(s.into_value())))),
            Err(e) => Value::Result(Err(Some(Box::new(e.into_value())))),
        }
    }

    fn get_type() -> (t: AnalysedType) {
        ty::result(S::get_type(), E::get_type())
    }
}

impl<E: IntoValue> IntoValue for Result<(), E> {
    open spec fn is_value(self, v: Value) -> bool {
        match self {
            Ok(_) => v == Value::Result(Ok(None)),
            Err(e) => v matches Value::Result(Err(Some(b))) && e.is_value(*b),
        }
    }

    open spec fn is_type(t: AnalysedType) -> bool {
        &&& t matches AnalysedType::Result(tr)
        &&& tr.ok is None
        &&& tr.err matches Some(err) && E::is_type(*err)
    }

    open spec fn converts_deterministically() -> bool {
        E::converts_deterministically()
    }

    proof fn lemma_is_value_fixed(self, v: Value, w: Value) {
        if Self::converts_deterministically() {
            match (self, v, w) {
                (Err(e), Value::Result(Err(Some(p))), Value::Result(Err(Some(q)))) => {
                    e.lemma_is_value_fixed(*p, *q);
                    assert(same_boxed_value(Some(p), Some(q)));
                },
                _ => {
                    assert(same_boxed_value(None, None));
                },
            }
        }
    }

    proof fn lemma_is_type_fixed(a: AnalysedType, b: AnalysedType) {
        if let AnalysedType::Result(rb) = b {
            let ra = a->Result_0;
            assert(same_boxed_type(rb.ok, ra.ok) == (rb.ok is None));
            assert(same_boxed_type(rb.err, ra.err) == (rb.err matches Some(be) && same_type(
                *be,
                *ra.err->Some_0,
            )));
            if let Some(be) = rb.err {
                E::lemma_is_type_fixed(*ra.err->Some_0, *be);
            }
        }
    }

    fn into_value(self) -> (v: Value) {
        match self {
            Ok(_) => Value::Result(Ok(None)),
            Err(e) => Value::Result(Err(Some(Box::new(e.into_value())))),
        }
    }

    fn get_type() -> (t: AnalysedType) {
        ty::result_err(E::get_type())
    }
}

impl<S: IntoValue> IntoValue for Result<S, ()> {
    open spec fn is_value(self, v: Value) -> bool {
        match self {
            Ok(s) => v matches Value::Result(Ok(Some(b))) && s.is_value(*b),
            Err(_) => v == Value::Result(Err(None)),
        }
    }

    open spec fn is_type(t: AnalysedType) -> bool {
        &&& t matches AnalysedType::Result(tr)
        &&& tr.ok matches Some(ok) && S::is_type(*ok)
        &&& tr.err is None
    }

    open spec fn converts_deterministically() -> bool {
        S::converts_deterministically()
    }

    proof fn lemma_is_value_fixed(self, v: Value, w: Value) {
        if Self::converts_deterministically() {
            match (self, v, w) {
                (Ok(s), Value::Result(Ok(Some(p))), Value::Result(Ok(Some(q)))) => {
                    s.lemma_is_value_fixed(*p, *q);
                    assert(same_boxed_value(Some(p), Some(q)));
                },
                _ => {
                    assert(same_boxed_value(None, None));
                },
            }
        }
    }

    proof fn lemma_is_type_fixed(a: AnalysedType, b: AnalysedType) {
        if let AnalysedType::Result(rb) = b {
            let ra = a->Result_0;
            assert(same_boxed_type(rb.err, ra.err) == (rb.err is None));
            assert(same_boxed_type(rb.ok, ra.ok) == (rb.ok matches Some(bo) && same_type(
                *bo,
                *ra.ok->Some_0,
            )));
            if let Some(bo) = rb.ok {
                S::lemma_is_type_fixed(*ra.ok->Some_0, *bo);
            }
        }
    }

    fn into_value(self) -> (v: Value) {
        match self {
            Ok(s) => Value::Result(Ok(Some(Box::new(s.into_value())))),
            Err(_) => Value::Result(Err(None)),
        }
    }

    fn get_type() -> (t: AnalysedType) {
        ty::result_ok(S::get_type())
    }
}

impl<T: IntoValue> IntoValue for Option<T> {
    open spec fn is_value(self, v: Value) -> bool {
        match self {
            Some(x) => v matches Value::Option(Some(b)) && x.is_value(*b),
            None => v == Value::Option(None),
        }
    }

    open spec fn is_type(t: AnalysedType) -> bool {
        t matches AnalysedType::Option(to) && T::is_type(*to.inner)
    }

    open spec fn converts_deterministically() -> bool {
        T::converts_deterministically()
    }

    proof fn lemma_is_value_fixed(self, v: Value, w: Value) {
        if Self::converts_deterministically() {
            match (self, v, w) {
                (Some(x), Value::Option(Some(p)), Value::Option(Some(q))) => {
                    x.lemma_is_value_fixed(*p, *q);
                    assert(same_boxed_value(Some(p), Some(q)));
                },
                _ => {
                    assert(same_boxed_value(None, None));
                },
            }
        }
    }

    proof fn lemma_is_type_fixed(a: AnalysedType, b: AnalysedType) {
        if let AnalysedType::Option(ob) = b {
            T::lemma_is_type_fixed(*a->Option_0.inner, *ob.inner);
        }
    }

    fn into_value(self) -> (v: Value) {
        match self {
            Some(x) => Value::Option(Some(Box::new(x.into_value()))),
            None => Value::Option(None),
        }
    }

    fn get_type() -> (t: AnalysedType) {
        ty::option(T::get_type())
    }
}

impl<T: IntoValue> IntoValue for Vec<T> {
    open spec fn is_value(self, v: Value) -> bool {
        &&& v matches Value::List(items)
        &&& items.len() == self.len()
        &&& forall|i: int| 0 <= i < self.len() ==> T::is_value(#[trigger] self@[i], items@[i])
    }

    open spec fn is_type(t: AnalysedType) -> bool {
        t matches AnalysedType::List(tl) && T::is_type(*tl.inner)
    }

    open spec fn converts_deterministically() -> bool {
        T::converts_deterministically()
    }

    proof fn lemma_is_value_fixed(self, v: Value, w: Value) {
        if Self::converts_deterministically() {
            let vs = v->List_0;
            let ws = w->List_0;
            assert forall|i: int| 0 <= i < vs.len() implies same_value(#[trigger] vs@[i], ws@[i]) by {
                self@[i].lemma_is_value_fixed(vs@[i], ws@[i]);
            }
        }
    }

    proof fn lemma_is_type_fixed(a: AnalysedType, b: AnalysedType) {
        if let AnalysedType::List(lb) = b {
            T::lemma_is_type_fixed(*a->List_0.inner, *lb.inner);
        }
    }

    fn into_value(self) -> (v: Value) {
        let ghost elements = self@;
        let mut items: Vec<Value> = Vec::new();
        for x in it: self.into_iter()
            invariant
                it.seq() == elements,
                items.len() == it.index(),
                forall|j: int| 0 <= j < items.len() ==> T::is_value(elements[j], #[trigger] items@[j]),
                forall|j: int, t: AnalysedType|
                    0 <= j < items.len() && #[trigger] T::is_type(t) ==> has_type(
                        #[trigger] items@[j],
                        t,
                    ),
        {
            items.push(x.into_value());
        }
        Value::List(items)
    }

    fn get_type() -> (t: AnalysedType) {
        ty::list(T::get_type())
    }
}

/// Converting the concatenation of two vectors gives the concatenation of the
/// two converted lists: the items of `a` first, then those of `b`, each
/// structurally equal to the item it stands for. An empty vector converts
/// into an empty list, so concatenating it on either side changes nothing.
pub proof fn lemma_list_conversion_concatenates<T: IntoValue>(
    a: Vec<T>,
    b: Vec<T>,
    ab: Vec<T>,
    va: Value,
    vb: Value,
    vab: Value,
)
    requires
        ab@ == a@ + b@,
        a.is_value(va),
        b.is_value(vb),
        ab.is_value(vab),
        T::converts_deterministically(),
    ensures
        vab matches Value::List(items) && items.len() == va->List_0.len() + vb->List_0.len(),
        forall|i: int|
            0 <= i < va->List_0.len() ==> same_value(
                #[trigger] vab->List_0@[i],
                va->List_0@[i],
            ),
        forall|i: int|
            0 <= i < vb->List_0.len() ==> same_value(
                #[trigger] vab->List_0@[va->List_0.len() + i],
                vb->List_0@[i],
            ),
        a.len() == 0 ==> va->List_0.len() == 0 && same_value(vab, vb),
        b.len() == 0 ==> vb->List_0.len() == 0 && same_value(vab, va),
{
    let xs = va->List_0;
    let ys = vb->List_0;
    let zs = vab->List_0;
    let n = a.len() as int;
    assert forall|i: int| 0 <= i < xs.len() implies same_value(#[trigger] zs@[i], xs@[i]) by {
        assert(ab@[i] == a@[i]);
        a@[i].lemma_is_value_fixed(zs@[i], xs@[i]);
    }
    assert forall|i: int| 0 <= i < ys.len() implies same_value(#[trigger] zs@[n + i], ys@[i]) by {
        assert(ab@[n + i] == b@[i]);
        b@[i].lemma_is_value_fixed(zs@[n + i], ys@[i]);
    }
    if a.len() == 0 {
        assert forall|i: int| 0 <= i < zs.len() implies same_value(#[trigger] zs@[i], ys@[i]) by {
            assert(same_value(zs@[n + i], ys@[i]));
        }
    }
}

impl<A: IntoValue, B: IntoValue> IntoValue for (A, B) {
    open spec fn is_value(self, v: Value) -> bool {
        &&& v matches Value::Tuple(items)
        &&& items.len() == 2
        &&& self.0.is_value(items@[0])
        &&& self.1.is_value(items@[1])
    }

    open spec fn is_type(t: AnalysedType) -> bool {
        &&& t matches AnalysedType::Tuple(tt)
        &&& tt.items.len() == 2
        &&& A::is_type(tt.items@[0])
        &&& B::is_type(tt.items@[1])
    }

    open spec fn converts_deterministically() -> bool {
        A::converts_deterministically() && B::converts_deterministically()
    }

    proof fn lemma_is_value_fixed(self, v: Value, w: Value) {
        if Self::converts_deterministically() {
            let vs = v->Tuple_0;
            let ws = w->Tuple_0;
            self.0.lemma_is_value_fixed(vs@[0], ws@[0]);
            self.1.lemma_is_value_fixed(vs@[1], ws@[1]);
            assert forall|i: int| 0 <= i < vs.len() implies same_value(#[trigger] vs@[i], ws@[i]) by {}
        }
    }

    proof fn lemma_is_type_fixed(a: AnalysedType, b: AnalysedType) {
        if let AnalysedType::Tuple(tb) = b {
            if tb.items.len() == 2 {
                let ta = a->Tuple_0;
                A::lemma_is_type_fixed(ta.items@[0], tb.items@[0]);
                B::lemma_is_type_fixed(ta.items@[1], tb.items@[1]);
            }
        }
    }

    fn into_value(self) -> (v: Value) {
        Value::Tuple(vec![self.0.into_value(), self.1.into_value()])
    }

    fn get_type() -> (t: AnalysedType) {
        ty::tuple(vec![A::get_type(), B::get_type()])
    }
}

impl<A: IntoValue, B: IntoValue, C: IntoValue> IntoValue for (A, B, C) {
    open spec fn is_value(self, v: Value) -> bool {
        &&& v matches Value::Tuple(items)
        &&& items.len() == 3
        &&& self.0.is_value(items@[0])
        &&& self.1.is_value(items@[1])
        &&& self.2.is_value(items@[2])
    }

    open spec fn is_type(t: AnalysedType) -> bool {
        &&& t matches AnalysedType::Tuple(tt)
        &&& tt.items.len() == 3
        &&& A::is_type(tt.items@[0])
        &&& B::is_type(tt.items@[1])
        &&& C::is_type(tt.items@[2])
    }

    open spec fn converts_deterministically() -> bool {
        &&& A::converts_deterministically()
        &&& B::converts_deterministically()
        &&& C::converts_deterministically()
    }

    proof fn lemma_is_value_fixed(self, v: Value, w: Value) {
        if Self::converts_deterministically() {
            let vs = v->Tuple_0;
            let ws = w->Tuple_0;
            self.0.lemma_is_value_fixed(vs@[0], ws@[0]);
            self.1.lemma_is_value_fixed(vs@[1], ws@[1]);
            self.2.lemma_is_value_fixed(vs@[2], ws@[2]);
            assert forall|i: int| 0 <= i < vs.len() implies same_value(#[trigger] vs@[i], ws@[i]) by {}
        }
    }

    proof fn lemma_is_type_fixed(a: AnalysedType, b: AnalysedType) {
        if let AnalysedType::Tuple(tb) = b {
            if tb.items.len() == 3 {
                let ta = a->Tuple_0;
                A::lemma_is_type_fixed(ta.items@[0], tb.items@[0]);
                B::lemma_is_type_fixed(ta.items@[1], tb.items@[1]);
                C::lemma_is_type_fixed(ta.items@[2], tb.items@[2]);
            }
        }
    }

    fn into_value(self) -> (v: Value) {
        Value::Tuple(vec![self.0.into_value(), self.1.into_value(), self.2.into_value()])
    }

    fn get_type() -> (t: AnalysedType) {
        ty::tuple(vec![A::get_type(), B::get_type(), C::get_type()])
    }
}

/// `item` is the two-element tuple that the map entry `entry` converts into.
pub open spec fn is_entry_value<K: IntoValue, V: IntoValue>(entry: (K, V), item: Value) -> bool {
    &&& item matches Value::Tuple(parts)
    &&& parts.len() == 2
    &&& entry.0.is_value(parts@[0])
    &&& entry.1.is_value(parts@[1])
}

impl<K: IntoValue, V: IntoValue> IntoValue for HashMap<K, V> {
    /// The map converts into a list with one key-value tuple per entry, in
    /// the order in which the map yields its entries.
    open spec fn is_value(self, v: Value) -> bool {
        &&& v matches Value::List(items)
        &&& exists|entries: Seq<(K, V)>|
            {
                &&& entries.len() == items.len()
                &&& forall|i: int|
                    0 <= i < entries.len() ==> is_entry_value(#[trigger] entries[i], items@[i])
                &&& obeys_key_model::<K>() && builds_valid_hashers::<RandomState>() ==> lists_entries(
                    self@,
                    entries,
                )
            }
    }

    open spec fn is_type(t: AnalysedType) -> bool {
        &&& t matches AnalysedType::List(tl)
        &&& *tl.inner matches AnalysedType::Tuple(tt)
        &&& tt.items.len() == 2
        &&& K::is_type(tt.items@[0])
        &&& V::is_type(tt.items@[1])
    }

    open spec fn converts_deterministically() -> bool {
        false
    }

    proof fn lemma_is_value_fixed(self, v: Value, w: Value) {
    }

    proof fn lemma_is_type_fixed(a: AnalysedType, b: AnalysedType) {
        if let AnalysedType::List(lb) = b {
            assert(same_type(b, a) == same_type(*lb.inner, *a->List_0.inner));
            if let AnalysedType::Tuple(tb) = *lb.inner {
                if tb.items.len() == 2 {
                    let ta = a->List_0.inner->Tuple_0;
                    K::lemma_is_type_fixed(ta.items@[0], tb.items@[0]);
                    V::lemma_is_type_fixed(ta.items@[1], tb.items@[1]);
                }
            }
        }
    }

    fn into_value(self) -> (v: Value) {
        let entries = hash_map_entries(self);
        let ghost listed = entries@;
        let mut items: Vec<Value> = Vec::new();
        for entry in it: entries.into_iter()
            invariant
                it.seq() == listed,
                items.len() == it.index(),
                forall|j: int| 0 <= j < items.len() ==> is_entry_value(listed[j], #[trigger] items@[j]),
                forall|j: int, t: AnalysedType|
                    0 <= j < items.len() && #[trigger] Self::is_type(t) ==> has_type(
                        #[trigger] items@[j],
                        *t->List_0.inner,
                    ),
        {
            let (key, value) = entry;
            let key_value = key.into_value();
            let value_value = value.into_value();
            let parts = vec![key_value, value_value];
            let item = Value::Tuple(parts);
            proof {
                assert(parts@ == seq![key_value, value_value]);
                assert forall|t: AnalysedType| #[trigger] Self::is_type(t) implies has_type(
                    item,
                    *t->List_0.inner,
                ) by {
                    let tt = t->List_0.inner->Tuple_0;
                    assert(has_type(parts@[0], tt.items@[0]));
                    assert(has_type(parts@[1], tt.items@[1]));
                }
            }
            items.push(item);
        }
        Value::List(items)
    }

    fn get_type() -> (t: AnalysedType) {
        ty::list(ty::tuple(vec![K::get_type(), V::get_type()]))
    }
}

impl IntoValue for Uuid {
    open spec fn is_value(self, v: Value) -> bool {
        v matches Value::String(s) && s@ == uuid_text(self.0)
    }

    open spec fn is_type(t: AnalysedType) -> bool {
        t is Str
    }

    open spec fn converts_deterministically() -> bool {
        true
    }

    proof fn lemma_is_value_fixed(self, v: Value, w: Value) {
    }

    proof fn lemma_is_type_fixed(a: AnalysedType, b: AnalysedType) {
    }

    fn into_value(self) -> (v: Value) {
        uuid_to_string(self.0).into_value()
    }

    fn get_type() -> (t: AnalysedType) {
        ty::str()
    }
}

impl IntoValue for Duration {
    /// A duration converts into its whole number of nanoseconds, cut to the
    /// low 64 bits.
    open spec fn is_value(self, v: Value) -> bool {
        v == Value::U64(duration_nanos(self) as u64)
    }

    open spec fn is_type(t: AnalysedType) -> bool {
        t is U64
    }

    open spec fn converts_deterministically() -> bool {
        true
    }

    proof fn lemma_is_value_fixed(self, v: Value, w: Value) {
    }

    proof fn lemma_is_type_fixed(a: AnalysedType, b: AnalysedType) {
    }

    fn into_value(self) -> (v: Value) {
        let nanos = duration_as_nanos(&self);
        Value::U64(#[verifier::truncate] (nanos as u64))
    }

    fn get_type() -> (t: AnalysedType) {
        ty::u64()
    }
}

impl IntoValue for Instant {
    /// An instant converts into the whole number of nanoseconds of the time
    /// that has passed since it, cut to the low 64 bits. That time is read
    /// from the clock during the conversion.
    open spec fn is_value(self, v: Value) -> bool {
        exists|elapsed: Duration| v == Value::U64(#[trigger] duration_nanos(elapsed) as u64)
    }

    open spec fn is_type(t: AnalysedType) -> bool {
        t is U64
    }

    open spec fn converts_deterministically() -> bool {
        false
    }

    proof fn lemma_is_value_fixed(self, v: Value, w: Value) {
    }

    proof fn lemma_is_type_fixed(a: AnalysedType, b: AnalysedType) {
    }

    fn into_value(self) -> (v: Value) {
        let elapsed = instant_elapsed(&self);
        elapsed.into_value()
    }

    fn get_type() -> (t: AnalysedType) {
        ty::u64()
    }
}

} // verus!
