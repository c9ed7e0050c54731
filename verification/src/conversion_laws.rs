//! What each conversion into a component-model value gives, stated over the
//! value constructors: the number, text or structure that the result carries,
//! and which case of a result, option or node variant it is.
use vstd::prelude::*;

use crate::analysed_type::AnalysedType;
use crate::platform::{duration_nanos, hex_digit, hyphens_before, uuid_nibble, uuid_text, Uuid};
use crate::value::{Uri, Value};
use crate::value_and_type::IntoValue;
use crate::wit::{NodeIndex, WitNode, WitValue};
use crate::into_value::is_entry_value;
use crate::platform::lists_entries;
use std::collections::hash_map::RandomState;
use std::collections::HashMap;
use std::time::{Duration, Instant};
use vstd::std_specs::hash::{builds_valid_hashers, obeys_key_model};

verus! {

broadcast use vstd::std_specs::vec::group_vec_axioms;

/// An unsigned integer converts into the value of its width that carries the
/// same number, and nothing else; its type is the unsigned type of its width.
pub proof fn lemma_unsigned_integers_keep_their_number(a: u8, b: u16, c: u32, d: u64, v: Value, t: AnalysedType)
    ensures
        a.is_value(v) <==> v == Value::U8(a),
        b.is_value(v) <==> v == Value::U16(b),
        c.is_value(v) <==> v == Value::U32(c),
        d.is_value(v) <==> v == Value::U64(d),
        u8::is_type(t) <==> t is U8,
        u16::is_type(t) <==> t is U16,
        u32::is_type(t) <==> t is U32,
        u64::is_type(t) <==> t is U64,
{
}

/// A signed integer converts into the value of its width that carries the
/// same number, sign included, and nothing else; its type is the signed type
/// of its width.
pub proof fn lemma_signed_integers_keep_their_number(a: i8, b: i16, c: i32, d: i64, v: Value, t: AnalysedType)
    ensures
        a.is_value(v) <==> v == Value::S8(a),
        b.is_value(v) <==> v == Value::S16(b),
        c.is_value(v) <==> v == Value::S32(c),
        d.is_value(v) <==> v == Value::S64(d),
        i8::is_type(t) <==> t is S8,
        i16::is_type(t) <==> t is S16,
        i32::is_type(t) <==> t is S32,
        i64::is_type(t) <==> t is S64,
{
}

/// A boolean, a character and a text convert into the value that carries the
/// same boolean, the same character and the same characters in order.
pub proof fn lemma_booleans_characters_and_texts_are_kept(
    b: bool,
    c: char,
    s: String,
    r: &str,
    v: Value,
    t: AnalysedType,
)
    ensures
        b.is_value(v) <==> v == Value::Bool(b),
        c.is_value(v) <==> v == Value::Char(c),
        s.is_value(v) <==> (v matches Value::String(x) && x@ == s@),
        r.is_value(v) <==> (v matches Value::String(x) && x@ == r@),
        bool::is_type(t) <==> t is Bool,
        char::is_type(t) <==> t is Chr,
        String::is_type(t) <==> t is Str,
        <&str>::is_type(t) <==> t is Str,
{
}

/// A result converts into a result value of the same outcome: a success into
/// a success that carries what the success value converts into, an error
/// into an error that carries what the error value converts into.
pub proof fn lemma_results_keep_their_outcome<S: IntoValue, E: IntoValue>(r: Result<S, E>, v: Value)
    requires
        r.is_value(v),
    ensures
        v matches Value::Result(outcome),
        r is Ok <==> v->Result_0 is Ok,
        r is Err <==> v->Result_0 is Err,
        r matches Ok(s) ==> (v->Result_0->Ok_0 matches Some(b) && s.is_value(*b)),
        r matches Err(e) ==> (v->Result_0->Err_0 matches Some(b) && e.is_value(*b)),
{
}

/// A result without a success value converts into a result value of the same
/// outcome: a success into a success without payload, an error into an error
/// that carries what the error value converts into.
pub proof fn lemma_unit_success_results_keep_their_outcome<E: IntoValue>(r: Result<(), E>, v: Value)
    requires
        r.is_value(v),
    ensures
        v matches Value::Result(outcome),
        r is Ok <==> v->Result_0 is Ok,
        r is Err <==> v->Result_0 is Err,
        r is Ok ==> v == Value::Result(Ok(None)),
        r matches Err(e) ==> (v->Result_0->Err_0 matches Some(b) && e.is_value(*b)),
{
}

/// A result without an error value converts into a result value of the same
/// outcome: a success into a success that carries what the success value
/// converts into, an error into an error without payload.
pub proof fn lemma_unit_error_results_keep_their_outcome<S: IntoValue>(r: Result<S, ()>, v: Value)
    requires
        r.is_value(v),
    ensures
        v matches Value::Result(outcome),
        r is Ok <==> v->Result_0 is Ok,
        r is Err <==> v->Result_0 is Err,
        r matches Ok(s) ==> (v->Result_0->Ok_0 matches Some(b) && s.is_value(*b)),
        r is Err ==> v == Value::Result(Err(None)),
{
}

/// An option converts into an option value that is present exactly when the
/// option is, and then carries what its content converts into.
pub proof fn lemma_options_keep_their_presence<T: IntoValue>(o: Option<T>, v: Value)
    requires
        o.is_value(v),
    ensures
        v matches Value::Option(inner),
        o is None <==> v->Option_0 is None,
        o matches Some(x) ==> (v->Option_0 matches Some(b) && x.is_value(*b)),
{
}

/// A vector converts into a list with one item per element, in order, each
/// item what its element converts into.
pub proof fn lemma_vectors_keep_their_elements<T: IntoValue>(xs: Vec<T>, v: Value)
    requires
        xs.is_value(v),
    ensures
        v matches Value::List(items) && items.len() == xs.len(),
        forall|i: int| 0 <= i < xs.len() ==> (#[trigger] xs@[i]).is_value(v->List_0@[i]),
{
}

/// A pair converts into a tuple of two items and a triple into a tuple of
/// three, each item what the component in its place converts into.
pub proof fn lemma_tuples_keep_their_components<A: IntoValue, B: IntoValue, C: IntoValue>(
    pair: (A, B),
    triple: (A, B, C),
    v: Value,
    w: Value,
)
    requires
        pair.is_value(v),
        triple.is_value(w),
    ensures
        v matches Value::Tuple(items) && items.len() == 2,
        pair.0.is_value(v->Tuple_0@[0]) && pair.1.is_value(v->Tuple_0@[1]),
        w matches Value::Tuple(items) && items.len() == 3,
        triple.0.is_value(w->Tuple_0@[0]) && triple.1.is_value(w->Tuple_0@[1]) && triple.2.is_value(
            w->Tuple_0@[2],
        ),
{
}

/// A hash map converts into a list of two-item tuples. Where the key type
/// obeys the hash map's key model, there is one tuple per entry: every entry
/// of the map has a tuple that holds what its key and its value convert
/// into, and every tuple holds the conversions of the key and value of an
/// entry of the map.
pub proof fn lemma_hash_maps_convert_into_their_entries<K: IntoValue, V: IntoValue>(
    m: HashMap<K, V>,
    v: Value,
)
    requires
        m.is_value(v),
    ensures
        v matches Value::List(items),
        forall|i: int|
            0 <= i < v->List_0.len() ==> (#[trigger] v->List_0@[i] matches Value::Tuple(parts)
                && parts.len() == 2),
        obeys_key_model::<K>() && builds_valid_hashers::<RandomState>() ==> {
            &&& v->List_0.len() == m@.dom().len()
            &&& forall|k: K|
                #![trigger m@.contains_key(k)]
                m@.contains_key(k) ==> exists|i: int|
                    #![trigger v->List_0@[i]]
                    0 <= i < v->List_0.len() && k.is_value(v->List_0@[i]->Tuple_0@[0])
                        && m@[k].is_value(v->List_0@[i]->Tuple_0@[1])
            &&& forall|i: int|
                #![trigger v->List_0@[i]]
                0 <= i < v->List_0.len() ==> v->List_0@[i] is Tuple && exists|k: K|
                    #![trigger m@.contains_key(k)]
                    m@.contains_key(k) && k.is_value(v->List_0@[i]->Tuple_0@[0])
                        && m@[k].is_value(v->List_0@[i]->Tuple_0@[1])
        },
{
    let items = v->List_0;
    let entries = choose|entries: Seq<(K, V)>|
        {
            &&& entries.len() == items.len()
            &&& forall|i: int|
                0 <= i < entries.len() ==> is_entry_value(#[trigger] entries[i], items@[i])
            &&& obeys_key_model::<K>() && builds_valid_hashers::<RandomState>() ==> lists_entries(
                m@,
                entries,
            )
        };
    assert forall|i: int| 0 <= i < items.len() implies (#[trigger] items@[i] matches Value::Tuple(parts)
        && parts.len() == 2) by {
        assert(is_entry_value(entries[i], items@[i]));
    }
    if obeys_key_model::<K>() && builds_valid_hashers::<RandomState>() {
        assert forall|k: K| #![trigger m@.contains_key(k)] m@.contains_key(k) implies exists|i: int|
            #![trigger v->List_0@[i]]
            0 <= i < v->List_0.len() && k.is_value(v->List_0@[i]->Tuple_0@[0])
                && m@[k].is_value(v->List_0@[i]->Tuple_0@[1]) by {
            let i = choose|i: int| 0 <= i < entries.len() && entries[i].0 == k;
            assert(is_entry_value(entries[i], items@[i]));
        }
        assert forall|i: int| #![trigger v->List_0@[i]] 0 <= i < v->List_0.len() implies v->List_0@[i] is Tuple
            && exists|k: K|
            #![trigger m@.contains_key(k)]
            m@.contains_key(k) && k.is_value(v->List_0@[i]->Tuple_0@[0])
                && m@[k].is_value(v->List_0@[i]->Tuple_0@[1]) by {
            assert(is_entry_value(entries[i], items@[i]));
            assert(m@.contains_key(entries[i].0));
        }
    }
}

/// An identifier converts into its 36-character hyphenated text: hyphens at
/// positions 8, 13, 18 and 23, and elsewhere its lower-case hexadecimal
/// digits, most significant first.
pub proof fn lemma_uuids_convert_into_their_text(u: Uuid, v: Value)
    requires
        u.is_value(v),
    ensures
        v matches Value::String(s) && s@ == uuid_text(u.0),
        v->String_0@.len() == 36,
        v->String_0@[8] == '-' && v->String_0@[13] == '-' && v->String_0@[18] == '-'
            && v->String_0@[23] == '-',
        forall|i: int|
            0 <= i < 36 && i != 8 && i != 13 && i != 18 && i != 23 ==> {
                ||| '0' <= #[trigger] v->String_0@[i] <= '9'
                ||| 'a' <= v->String_0@[i] <= 'f'
            },
{
    assert forall|i: int| 0 <= i < 36 && i != 8 && i != 13 && i != 18 && i != 23 implies {
        ||| '0' <= #[trigger] v->String_0@[i] <= '9'
        ||| 'a' <= v->String_0@[i] <= 'f'
    } by {
        let n = uuid_nibble(u.0, i - hyphens_before(i));
        assert(0 <= n < 16);
        assert(v->String_0@[i] == hex_digit(n));
    }
}

/// A duration converts into its nanoseconds, cut to 64 bits; an instant
/// converts into the nanoseconds, cut to 64 bits, of a duration: the time
/// that has passed since it, as read from the clock during the conversion.
pub proof fn lemma_times_convert_into_nanoseconds(d: Duration, i: Instant, v: Value, w: Value)
    requires
        d.is_value(v),
        i.is_value(w),
    ensures
        v == Value::U64(duration_nanos(d) as u64),
        exists|elapsed: Duration| #[trigger] elapsed.is_value(w),
{
    let elapsed = choose|elapsed: Duration| w == Value::U64(#[trigger] duration_nanos(elapsed) as u64);
    assert(elapsed.is_value(w));
}

/// A location converts into a record with the single field `value` that
/// holds its text; a flat value into a record with the single field `nodes`
/// that holds the list its nodes convert into.
pub proof fn lemma_records_keep_their_fields(uri: Uri, wv: WitValue, v: Value, w: Value, t: AnalysedType, s: AnalysedType)
    requires
        uri.is_value(v),
        wv.is_value(w),
        Uri::is_type(t),
        WitValue::is_type(s),
    ensures
        v matches Value::Record(fields) && fields.len() == 1,
        v->Record_0@[0] matches Value::String(x) && x@ == uri.value@,
        t matches AnalysedType::Record(r) && r.fields.len() == 1 && r.fields@[0].name@ == "value"@,
        w matches Value::Record(fields) && fields.len() == 1,
        wv.nodes.is_value(w->Record_0@[0]),
        s matches AnalysedType::Record(r) && r.fields.len() == 1 && r.fields@[0].name@ == "nodes"@,
{
}

/// The name of the case of the node variant that stands for the kind of
/// `n`: its constructor's name, in kebab case.
pub open spec fn node_kind_name(n: WitNode) -> Seq<char> {
    match n {
        WitNode::RecordValue(..) => "record-value"@,
        WitNode::VariantValue(..) => "variant-value"@,
        WitNode::EnumValue(..) => "enum-value"@,
        WitNode::FlagsValue(..) => "flags-value"@,
        WitNode::TupleValue(..) => "tuple-value"@,
        WitNode::ListValue(..) => "list-value"@,
        WitNode::OptionValue(..) => "option-value"@,
        WitNode::ResultValue(..) => "result-value"@,
        WitNode::PrimU8(..) => "prim-u8"@,
        WitNode::PrimU16(..) => "prim-u16"@,
        WitNode::PrimU32(..) => "prim-u32"@,
        WitNode::PrimU64(..) => "prim-u64"@,
        WitNode::PrimS8(..) => "prim-s8"@,
        WitNode::PrimS16(..) => "prim-s16"@,
        WitNode::PrimS32(..) => "prim-s32"@,
        WitNode::PrimS64(..) => "prim-s64"@,
        WitNode::PrimFloat32(..) => "prim-float32"@,
        WitNode::PrimFloat64(..) => "prim-float64"@,
        WitNode::PrimChar(..) => "prim-char"@,
        WitNode::PrimBool(..) => "prim-bool"@,
        WitNode::PrimString(..) => "prim-string"@,
        WitNode::Handle(..) => "handle"@,
    }
}

/// `p` is the option value of the node index `o`.
pub open spec fn is_index_option(o: Option<NodeIndex>, p: Value) -> bool {
    match o {
        None => p == Value::Option(None),
        Some(i) => p matches Value::Option(Some(b)) && *b == Value::S32(i),
    }
}

/// `p` is the list of the node indices `xs`, in order.
pub open spec fn is_index_list(xs: Seq<NodeIndex>, p: Value) -> bool {
    &&& p matches Value::List(items)
    &&& items.len() == xs.len()
    &&& forall|i: int| 0 <= i < xs.len() ==> items@[i] == Value::S32(#[trigger] xs[i])
}

/// A node converts into the case of the node variant whose name, in the
/// variant type that `WitNode::get_type` gives, is the name of the node's
/// kind; the case carries the node's contents: its indices, flags, scalars,
/// text or handle, as the matching value.
pub proof fn lemma_nodes_convert_into_their_named_case(n: WitNode, v: Value, t: AnalysedType)
    requires
        n.is_value(v),
        WitNode::is_type(t),
    ensures
        v matches Value::Variant { case_idx, case_value: Some(payload) },
        v->case_idx < 22,
        t->Variant_0.cases@[v->case_idx as int].name@ == node_kind_name(n),
        ({
            let p = *v->case_value->Some_0;
            match n {
                WitNode::RecordValue(xs) => is_index_list(xs@, p),
                WitNode::VariantValue((c, o)) => {
                    &&& p matches Value::Tuple(items)
                    &&& p->Tuple_0.len() == 2
                    &&& p->Tuple_0@[0] == Value::U32(c)
                    &&& is_index_option(o, p->Tuple_0@[1])
                },
                WitNode::EnumValue(c) => p == Value::U32(c),
                WitNode::FlagsValue(fs) => {
                    &&& p matches Value::List(items)
                    &&& p->List_0.len() == fs.len()
                    &&& forall|i: int| 0 <= i < fs.len() ==> p->List_0@[i] == Value::Bool(#[trigger] fs@[i])
                },
                WitNode::TupleValue(xs) => is_index_list(xs@, p),
                WitNode::ListValue(xs) => is_index_list(xs@, p),
                WitNode::OptionValue(o) => is_index_option(o, p),
                WitNode::ResultValue(Ok(o)) => p matches Value::Result(Ok(Some(b))) && is_index_option(o, *b),
                WitNode::ResultValue(Err(o)) => p matches Value::Result(Err(Some(b))) && is_index_option(o, *b),
                WitNode::PrimU8(x) => p == Value::U8(x),
                WitNode::PrimU16(x) => p == Value::U16(x),
                WitNode::PrimU32(x) => p == Value::U32(x),
                WitNode::PrimU64(x) => p == Value::U64(x),
                WitNode::PrimS8(x) => p == Value::S8(x),
                WitNode::PrimS16(x) => p == Value::S16(x),
                WitNode::PrimS32(x) => p == Value::S32(x),
                WitNode::PrimS64(x) => p == Value::S64(x),
                WitNode::PrimFloat32(bits) => p == Value::F32(bits),
                WitNode::PrimFloat64(bits) => p == Value::F64(bits),
                WitNode::PrimChar(x) => p == Value::Char(x),
                WitNode::PrimBool(x) => p == Value::Bool(x),
                WitNode::PrimString(x) => p matches Value::String(s) && s@ == x@,
                WitNode::Handle((uri, id)) => {
                    &&& p matches Value::Tuple(items)
                    &&& p->Tuple_0.len() == 2
                    &&& p->Tuple_0@[0] matches Value::Record(fields)
                    &&& p->Tuple_0@[0]->Record_0.len() == 1
                    &&& p->Tuple_0@[0]->Record_0@[0] matches Value::String(s)
                    &&& p->Tuple_0@[0]->Record_0@[0]->String_0@ == uri.value@
                    &&& p->Tuple_0@[1] == Value::U64(id)
                },
            }
        }),
{
    let tv = t->Variant_0;
    let c = v->case_idx as int;
    assert(tv.cases@[c].name@ == crate::wit::wit_node_case_name(c));
    let p = *v->case_value->Some_0;
    match n {
        WitNode::RecordValue(xs) | WitNode::TupleValue(xs) | WitNode::ListValue(xs) => {
            assert forall|i: int| 0 <= i < xs.len() implies p->List_0@[i] == Value::S32(#[trigger] xs@[i]) by {
                assert(xs@[i].is_value(p->List_0@[i]));
            }
        },
        WitNode::FlagsValue(fs) => {
            assert forall|i: int| 0 <= i < fs.len() implies p->List_0@[i] == Value::Bool(#[trigger] fs@[i]) by {
                assert(fs@[i].is_value(p->List_0@[i]));
            }
        },
        _ => {},
    }
}

} // verus!
