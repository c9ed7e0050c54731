//! The flat node encoding of values used across the component boundary, and
//! how it converts into values.
use vstd::prelude::*;

use crate::analysed_type::{self as ty, same_optional_type, same_type, AnalysedType};
use crate::value::{has_type, lemma_char_has_type, same_boxed_value, same_value, Uri, Value};
use crate::value_and_type::IntoValue;

verus! {

broadcast use vstd::std_specs::vec::group_vec_axioms;

/// The index of a node in a `WitValue`.
pub type NodeIndex = i32;

/// One node of a flat value encoding. Composite nodes refer to their parts
/// by index. Floating-point payloads are held by their IEEE-754 bit patterns.
#[derive(Debug, PartialEq, Eq)]
pub enum WitNode {
    RecordValue(Vec<NodeIndex>),
    VariantValue((u32, Option<NodeIndex>)),
    EnumValue(u32),
    FlagsValue(Vec<bool>),
    TupleValue(Vec<NodeIndex>),
    ListValue(Vec<NodeIndex>),
    OptionValue(Option<NodeIndex>),
    ResultValue(Result<Option<NodeIndex>, Option<NodeIndex>>),
    PrimU8(u8),
    PrimU16(u16),
    PrimU32(u32),
    PrimU64(u64),
    PrimS8(i8),
    PrimS16(i16),
    PrimS32(i32),
    PrimS64(i64),
    PrimFloat32(u32),
    PrimFloat64(u64),
    PrimChar(char),
    PrimBool(bool),
    PrimString(String),
    Handle((Uri, u64)),
}

/// A value in the flat node encoding.
#[derive(Debug, PartialEq, Eq)]
pub struct WitValue {
    pub nodes: Vec<WitNode>,
}

impl IntoValue for Uri {
    open spec fn is_value(self, v: Value) -> bool {
        &&& v matches Value::Record(fields)
        &&& fields.len() == 1
        &&& fields@[0] matches Value::String(s) && s@ == self.value@
    }

    open spec fn is_type(t: AnalysedType) -> bool {
        &&& t matches AnalysedType::Record(r)
        &&& r.fields.len() == 1
        &&& r.fields@[0].name@ == "value"@
        &&& r.fields@[0].typ is Str
    }

    open spec fn converts_deterministically() -> bool {
        true
    }

    proof fn lemma_is_value_fixed(self, v: Value, w: Value) {
        assert forall|i: int| 0 <= i < v->Record_0.len() implies same_value(
            #[trigger] v->Record_0@[i],
            w->Record_0@[i],
        ) by {}
    }

    proof fn lemma_is_type_fixed(a: AnalysedType, b: AnalysedType) {
        if let AnalysedType::Record(rb) = b {
            if rb.fields.len() == 1 {
                assert(same_type(rb.fields@[0].typ, a->Record_0.fields@[0].typ) == rb.fields@[0].typ is Str);
            }
        }
    }

    fn into_value(self) -> (v: Value) {
        let fields = vec![Value::String(self.value)];
        proof {
            assert forall|t: AnalysedType| #[trigger] Uri::is_type(t) implies has_type(
                Value::Record(fields),
                t,
            ) by {
                assert(has_type(fields@[0], t->Record_0.fields@[0].typ));
            }
        }
        Value::Record(fields)
    }

    fn get_type() -> (t: AnalysedType) {
        ty::record(vec![ty::field("value", ty::str())])
    }
}

impl IntoValue for WitValue {
    open spec fn is_value(self, v: Value) -> bool {
        &&& v matches Value::Record(fields)
        &&& fields.len() == 1
        &&& self.nodes.is_value(fields@[0])
    }

    open spec fn is_type(t: AnalysedType) -> bool {
        &&& t matches AnalysedType::Record(r)
        &&& r.fields.len() == 1
        &&& r.fields@[0].name@ == "nodes"@
        &&& Vec::<WitNode>::is_type(r.fields@[0].typ)
    }

    open spec fn converts_deterministically() -> bool {
        true
    }

    proof fn lemma_is_value_fixed(self, v: Value, w: Value) {
        self.nodes.lemma_is_value_fixed(v->Record_0@[0], w->Record_0@[0]);
        assert forall|i: int| 0 <= i < v->Record_0.len() implies same_value(
            #[trigger] v->Record_0@[i],
            w->Record_0@[i],
        ) by {}
    }

    proof fn lemma_is_type_fixed(a: AnalysedType, b: AnalysedType) {
        if let AnalysedType::Record(rb) = b {
            if rb.fields.len() == 1 {
                Vec::<WitNode>::lemma_is_type_fixed(a->Record_0.fields@[0].typ, rb.fields@[0].typ);
            }
        }
    }

    fn into_value(self) -> (v: Value) {
        Value::Record(vec![self.nodes.into_value()])
    }

    fn get_type() -> (t: AnalysedType) {
        ty::record(vec![ty::field("nodes", ty::list(WitNode::get_type()))])
    }
}

/// The name of the variant case that encodes the node kind with index `i`.
pub open spec fn wit_node_case_name(i: int) -> Seq<char> {
    if i == 0 {
        "record-value"@
    } else if i == 1 {
        "variant-value"@
    } else if i == 2 {
        "enum-value"@
    } else if i == 3 {
        "flags-value"@
    } else if i == 4 {
        "tuple-value"@
    } else if i == 5 {
        "list-value"@
    } else if i == 6 {
        "option-value"@
    } else if i == 7 {
        "result-value"@
    } else if i == 8 {
        "prim-u8"@
    } else if i == 9 {
        "prim-u16"@
    } else if i == 10 {
        "prim-u32"@
    } else if i == 11 {
        "prim-u64"@
    } else if i == 12 {
        "prim-s8"@
    } else if i == 13 {
        "prim-s16"@
    } else if i == 14 {
        "prim-s32"@
    } else if i == 15 {
        "prim-s64"@
    } else if i == 16 {
        "prim-float32"@
    } else if i == 17 {
        "prim-float64"@
    } else if i == 18 {
        "prim-char"@
    } else if i == 19 {
        "prim-bool"@
    } else if i == 20 {
        "prim-string"@
    } else {
        "handle"@
    }
}

/// `t` is the payload type of the variant case with index `i`.
pub open spec fn wit_node_case_type(i: int, t: AnalysedType) -> bool {
    if i == 0 {
        Vec::<NodeIndex>::is_type(t)
    } else if i == 1 {
        <(u32, Option<NodeIndex>)>::is_type(t)
    } else if i == 2 {
        u32::is_type(t)
    } else if i == 3 {
        Vec::<bool>::is_type(t)
    } else if i == 4 {
        Vec::<NodeIndex>::is_type(t)
    } else if i == 5 {
        Vec::<NodeIndex>::is_type(t)
    } else if i == 6 {
        Option::<NodeIndex>::is_type(t)
    } else if i == 7 {
        Result::<Option<NodeIndex>, Option<NodeIndex>>::is_type(t)
    } else if i == 8 {
        t is U8
    } else if i == 9 {
        t is U16
    } else if i == 10 {
        t is U32
    } else if i == 11 {
        t is U64
    } else if i == 12 {
        t is S8
    } else if i == 13 {
        t is S16
    } else if i == 14 {
        t is S32
    } else if i == 15 {
        t is S64
    } else if i == 16 {
        t is F32
    } else if i == 17 {
        t is F64
    } else if i == 18 {
        t is Chr
    } else if i == 19 {
        t is Bool
    } else if i == 20 {
        t is Str
    } else {
        <(Uri, u64)>::is_type(t)
    }
}

impl WitNode {
    /// The index of the variant case that encodes this node.
    pub open spec fn case_index(self) -> u32 {
        match self {
            WitNode::RecordValue(..) => 0,
            WitNode::VariantValue(..) => 1,
            WitNode::EnumValue(..) => 2,
            WitNode::FlagsValue(..) => 3,
            WitNode::TupleValue(..) => 4,
            WitNode::ListValue(..) => 5,
            WitNode::OptionValue(..) => 6,
            WitNode::ResultValue(..) => 7,
            WitNode::PrimU8(..) => 8,
            WitNode::PrimU16(..) => 9,
            WitNode::PrimU32(..) => 10,
            WitNode::PrimU64(..) => 11,
            WitNode::PrimS8(..) => 12,
            WitNode::PrimS16(..) => 13,
            WitNode::PrimS32(..) => 14,
            WitNode::PrimS64(..) => 15,
            WitNode::PrimFloat32(..) => 16,
            WitNode::PrimFloat64(..) => 17,
            WitNode::PrimChar(..) => 18,
            WitNode::PrimBool(..) => 19,
            WitNode::PrimString(..) => 20,
            WitNode::Handle(..) => 21,
        }
    }

    /// `p` is the payload that this node converts into.
    pub open spec fn is_payload(self, p: Value) -> bool {
        match self {
            WitNode::RecordValue(indices) => indices.is_value(p),
            WitNode::VariantValue(variant) => variant.is_value(p),
            WitNode::EnumValue(idx) => idx.is_value(p),
            WitNode::FlagsValue(flags) => flags.is_value(p),
            WitNode::TupleValue(indices) => indices.is_value(p),
            WitNode::ListValue(indices) => indices.is_value(p),
            WitNode::OptionValue(index) => index.is_value(p),
            WitNode::ResultValue(result) => result.is_value(p),
            WitNode::PrimU8(value) => value.is_value(p),
            WitNode::PrimU16(value) => value.is_value(p),
            WitNode::PrimU32(value) => value.is_value(p),
            WitNode::PrimU64(value) => value.is_value(p),
            WitNode::PrimS8(value) => value.is_value(p),
            WitNode::PrimS16(value) => value.is_value(p),
            WitNode::PrimS32(value) => value.is_value(p),
            WitNode::PrimS64(value) => value.is_value(p),
            WitNode::PrimFloat32(bits) => p == Value::F32(bits),
            WitNode::PrimFloat64(bits) => p == Value::F64(bits),
            WitNode::PrimChar(value) => value.is_value(p),
            WitNode::PrimBool(value) => value.is_value(p),
            WitNode::PrimString(value) => value.is_value(p),
            WitNode::Handle((uri, resource_id)) => (uri, resource_id).is_value(p),
        }
    }
}

impl IntoValue for WitNode {
    open spec fn is_value(self, v: Value) -> bool {
        &&& v matches Value::Variant { case_idx, case_value: Some(payload) }
        &&& case_idx == self.case_index()
        &&& self.is_payload(*payload)
    }

    open spec fn is_type(t: AnalysedType) -> bool {
        &&& t matches AnalysedType::Variant(tv)
        &&& tv.cases.len() == 22
        &&& forall|i: int|
            0 <= i < 22 ==> {
                &&& (#[trigger] tv.cases@[i]).name@ == wit_node_case_name(i)
                &&& tv.cases@[i].typ matches Some(ct) && wit_node_case_type(i, ct)
            }
    }

    open spec fn converts_deterministically() -> bool {
        true
    }

    proof fn lemma_is_value_fixed(self, v: Value, w: Value) {
        let p = *v->Variant_case_value->Some_0;
        let q = *w->Variant_case_value->Some_0;
        match self {
            WitNode::RecordValue(x) => x.lemma_is_value_fixed(p, q),
            WitNode::VariantValue(x) => x.lemma_is_value_fixed(p, q),
            WitNode::EnumValue(x) => x.lemma_is_value_fixed(p, q),
            WitNode::FlagsValue(x) => x.lemma_is_value_fixed(p, q),
            WitNode::TupleValue(x) => x.lemma_is_value_fixed(p, q),
            WitNode::ListValue(x) => x.lemma_is_value_fixed(p, q),
            WitNode::OptionValue(x) => x.lemma_is_value_fixed(p, q),
            WitNode::ResultValue(x) => x.lemma_is_value_fixed(p, q),
            WitNode::PrimU8(x) => x.lemma_is_value_fixed(p, q),
            WitNode::PrimU16(x) => x.lemma_is_value_fixed(p, q),
            WitNode::PrimU32(x) => x.lemma_is_value_fixed(p, q),
            WitNode::PrimU64(x) => x.lemma_is_value_fixed(p, q),
            WitNode::PrimS8(x) => x.lemma_is_value_fixed(p, q),
            WitNode::PrimS16(x) => x.lemma_is_value_fixed(p, q),
            WitNode::PrimS32(x) => x.lemma_is_value_fixed(p, q),
            WitNode::PrimS64(x) => x.lemma_is_value_fixed(p, q),
            WitNode::PrimFloat32(_) => {},
            WitNode::PrimFloat64(_) => {},
            WitNode::PrimChar(x) => x.lemma_is_value_fixed(p, q),
            WitNode::PrimBool(x) => x.lemma_is_value_fixed(p, q),
            WitNode::PrimString(x) => x.lemma_is_value_fixed(p, q),
            WitNode::Handle(x) => x.lemma_is_value_fixed(p, q),
        }
        assert(same_boxed_value(v->Variant_case_value, w->Variant_case_value));
    }

    proof fn lemma_is_type_fixed(a: AnalysedType, b: AnalysedType) {
        if let AnalysedType::Variant(vb) = b {
            let va = a->Variant_0;
            if vb.cases.len() == 22 {
                assert forall|i: int| 0 <= i < 22 implies same_optional_type(
                    #[trigger] vb.cases@[i].typ,
                    va.cases@[i].typ,
                ) == (vb.cases@[i].typ matches Some(ct) && wit_node_case_type(i, ct)) by {
                    let ca = va.cases@[i].typ->Some_0;
                    if let Some(cb) = vb.cases@[i].typ {
                        lemma_case_type_fixed(i, ca, cb);
                    }
                }
                if Self::is_type(b) {
                    assert forall|i: int| 0 <= i < vb.cases.len() implies {
                        &&& (#[trigger] vb.cases@[i]).name@ == va.cases@[i].name@
                        &&& same_optional_type(vb.cases@[i].typ, va.cases@[i].typ)
                    } by {
                        assert(vb.cases@[i].typ matches Some(ct) && wit_node_case_type(i, ct));
                    }
                }
                if same_type(b, a) {
                    assert forall|i: int| 0 <= i < 22 implies {
                        &&& (#[trigger] vb.cases@[i]).name@ == wit_node_case_name(i)
                        &&& vb.cases@[i].typ matches Some(ct) && wit_node_case_type(i, ct)
                    } by {
                        assert(same_optional_type(vb.cases@[i].typ, va.cases@[i].typ));
                    }
                }
            }
        }
    }

    fn into_value(self) -> (v: Value) {
        let case_idx: u32 = node_case_index(&self);
        let payload = match self {
            WitNode::RecordValue(indices) => indices.into_value(),
            WitNode::VariantValue(variant) => variant.into_value(),
            WitNode::EnumValue(idx) => idx.into_value(),
            WitNode::FlagsValue(flags) => flags.into_value(),
            WitNode::TupleValue(indices) => indices.into_value(),
            WitNode::ListValue(indices) => indices.into_value(),
            WitNode::OptionValue(index) => index.into_value(),
            WitNode::ResultValue(result) => result.into_value(),
            WitNode::PrimU8(value) => value.into_value(),
            WitNode::PrimU16(value) => value.into_value(),
            WitNode::PrimU32(value) => value.into_value(),
            WitNode::PrimU64(value) => value.into_value(),
            WitNode::PrimS8(value) => value.into_value(),
            WitNode::PrimS16(value) => value.into_value(),
            WitNode::PrimS32(value) => value.into_value(),
            WitNode::PrimS64(value) => value.into_value(),
            WitNode::PrimFloat32(bits) => Value::F32(bits),
            WitNode::PrimFloat64(bits) => Value::F64(bits),
            WitNode::PrimChar(value) => value.into_value(),
            WitNode::PrimBool(value) => value.into_value(),
            WitNode::PrimString(value) => value.into_value(),
            WitNode::Handle((uri, resource_id)) => Value::Tuple(vec![uri.into_value(), resource_id.into_value()]),
        };
        proof {
            assert forall|t: AnalysedType| #[trigger] wit_node_case_type(case_idx as int, t)
                implies has_type(payload, t) by {}
        }
        Value::Variant { case_idx, case_value: Some(Box::new(payload)) }
    }

    fn get_type() -> (t: AnalysedType) {
        ty::variant(
            vec![
                ty::case("record-value", ty::list(NodeIndex::get_type())),
                ty::case("variant-value", ty::tuple(vec![ty::u32(), ty::option(NodeIndex::get_type())])),
                ty::case("enum-value", ty::u32()),
                ty::case("flags-value", ty::list(ty::bool())),
                ty::case("tuple-value", ty::list(NodeIndex::get_type())),
                ty::case("list-value", ty::list(NodeIndex::get_type())),
                ty::case("option-value", ty::option(NodeIndex::get_type())),
                ty::case("result-value", ty::result(ty::option(NodeIndex::get_type()), ty::option(NodeIndex::get_type()))),
                ty::case("prim-u8", ty::u8()),
                ty::case("prim-u16", ty::u16()),
                ty::case("prim-u32", ty::u32()),
                ty::case("prim-u64", ty::u64()),
                ty::case("prim-s8", ty::s8()),
                ty::case("prim-s16", ty::s16()),
                ty::case("prim-s32", ty::s32()),
                ty::case("prim-s64", ty::s64()),
                ty::case("prim-float32", ty::float32()),
                ty::case("prim-float64", ty::float64()),
                ty::case("prim-char", ty::chr()),
                ty::case("prim-bool", ty::bool()),
                ty::case("prim-string", ty::str()),
                ty::case("handle", ty::tuple(vec![Uri::get_type(), ty::u64()])),
            ],
        )
    }
}

/// The payload type of each case of the node variant is fixed up to
/// structural equality.
proof fn lemma_case_type_fixed(i: int, a: AnalysedType, b: AnalysedType)
    requires
        wit_node_case_type(i, a),
    ensures
        wit_node_case_type(i, b) <==> same_type(b, a),
{
    if i == 0 {
        Vec::<NodeIndex>::lemma_is_type_fixed(a, b);
    } else if i == 1 {
        <(u32, Option<NodeIndex>)>::lemma_is_type_fixed(a, b);
    } else if i == 2 {
        u32::lemma_is_type_fixed(a, b);
    } else if i == 3 {
        Vec::<bool>::lemma_is_type_fixed(a, b);
    } else if i == 4 {
        Vec::<NodeIndex>::lemma_is_type_fixed(a, b);
    } else if i == 5 {
        Vec::<NodeIndex>::lemma_is_type_fixed(a, b);
    } else if i == 6 {
        Option::<NodeIndex>::lemma_is_type_fixed(a, b);
    } else if i == 7 {
        Result::<Option<NodeIndex>, Option<NodeIndex>>::lemma_is_type_fixed(a, b);
    } else if i == 8 {
        u8::lemma_is_type_fixed(a, b);
    } else if i == 9 {
        u16::lemma_is_type_fixed(a, b);
    } else if i == 10 {
        u32::lemma_is_type_fixed(a, b);
    } else if i == 11 {
        u64::lemma_is_type_fixed(a, b);
    } else if i == 12 {
        i8::lemma_is_type_fixed(a, b);
    } else if i == 13 {
        i16::lemma_is_type_fixed(a, b);
    } else if i == 14 {
        i32::lemma_is_type_fixed(a, b);
    } else if i == 15 {
        i64::lemma_is_type_fixed(a, b);
    } else if i == 18 {
        char::lemma_is_type_fixed(a, b);
    } else if i == 19 {
        bool::lemma_is_type_fixed(a, b);
    } else if i == 20 {
        String::lemma_is_type_fixed(a, b);
    } else if i != 16 && i != 17 {
        <(Uri, u64)>::lemma_is_type_fixed(a, b);
    }
}

/// Two nodes are the same: the same kind, with the same indices, flags,
/// scalars, strings and handles.
pub open spec fn same_node(a: WitNode, b: WitNode) -> bool {
    match (a, b) {
        (WitNode::RecordValue(x), WitNode::RecordValue(y)) => x@ == y@,
        (WitNode::VariantValue(x), WitNode::VariantValue(y)) => x == y,
        (WitNode::EnumValue(x), WitNode::EnumValue(y)) => x == y,
        (WitNode::FlagsValue(x), WitNode::FlagsValue(y)) => x@ == y@,
        (WitNode::TupleValue(x), WitNode::TupleValue(y)) => x@ == y@,
        (WitNode::ListValue(x), WitNode::ListValue(y)) => x@ == y@,
        (WitNode::OptionValue(x), WitNode::OptionValue(y)) => x == y,
        (WitNode::ResultValue(x), WitNode::ResultValue(y)) => x == y,
        (WitNode::PrimU8(x), WitNode::PrimU8(y)) => x == y,
        (WitNode::PrimU16(x), WitNode::PrimU16(y)) => x == y,
        (WitNode::PrimU32(x), WitNode::PrimU32(y)) => x == y,
        (WitNode::PrimU64(x), WitNode::PrimU64(y)) => x == y,
        (WitNode::PrimS8(x), WitNode::PrimS8(y)) => x == y,
        (WitNode::PrimS16(x), WitNode::PrimS16(y)) => x == y,
        (WitNode::PrimS32(x), WitNode::PrimS32(y)) => x == y,
        (WitNode::PrimS64(x), WitNode::PrimS64(y)) => x == y,
        (WitNode::PrimFloat32(x), WitNode::PrimFloat32(y)) => x == y,
        (WitNode::PrimFloat64(x), WitNode::PrimFloat64(y)) => x == y,
        (WitNode::PrimChar(x), WitNode::PrimChar(y)) => x == y,
        (WitNode::PrimBool(x), WitNode::PrimBool(y)) => x == y,
        (WitNode::PrimString(x), WitNode::PrimString(y)) => x@ == y@,
        (WitNode::Handle((u, i)), WitNode::Handle((w, j))) => u.value@ == w.value@ && i == j,
        _ => false,
    }
}

/// The node encoding loses nothing: two nodes that convert into the same
/// value are the same node, and the same nodes convert into the same values.
pub proof fn lemma_node_encoding_is_injective(a: WitNode, b: WitNode, v: Value)
    requires
        a.is_value(v),
    ensures
        b.is_value(v) <==> same_node(a, b),
{
    let payload = *v->Variant_case_value->Some_0;
    match (a, b) {
        (WitNode::RecordValue(x), WitNode::RecordValue(y)) => {
            if b.is_value(v) {
                assert(x@ =~= y@) by {
                    assert forall|i: int| 0 <= i < x.len() implies x@[i] == y@[i] by {
                        assert(x@[i].is_value(payload->List_0@[i]));
                        assert(y@[i].is_value(payload->List_0@[i]));
                    }
                }
            }
        },
        (WitNode::TupleValue(x), WitNode::TupleValue(y)) => {
            if b.is_value(v) {
                assert(x@ =~= y@) by {
                    assert forall|i: int| 0 <= i < x.len() implies x@[i] == y@[i] by {
                        assert(x@[i].is_value(payload->List_0@[i]));
                        assert(y@[i].is_value(payload->List_0@[i]));
                    }
                }
            }
        },
        (WitNode::ListValue(x), WitNode::ListValue(y)) => {
            if b.is_value(v) {
                assert(x@ =~= y@) by {
                    assert forall|i: int| 0 <= i < x.len() implies x@[i] == y@[i] by {
                        assert(x@[i].is_value(payload->List_0@[i]));
                        assert(y@[i].is_value(payload->List_0@[i]));
                    }
                }
            }
        },
        (WitNode::FlagsValue(x), WitNode::FlagsValue(y)) => {
            if b.is_value(v) {
                assert(x@ =~= y@) by {
                    assert forall|i: int| 0 <= i < x.len() implies x@[i] == y@[i] by {
                        assert(x@[i].is_value(payload->List_0@[i]));
                        assert(y@[i].is_value(payload->List_0@[i]));
                    }
                }
            }
        },
        _ => {},
    }
}

/// Two nodes convert into structurally equal values exactly when they are the
/// same node: the encoding loses nothing.
pub proof fn lemma_node_values_agree(a: WitNode, b: WitNode, v: Value, w: Value)
    requires
        a.is_value(v),
        b.is_value(w),
    ensures
        same_value(v, w) <==> same_node(a, b),
{
    if same_node(a, b) {
        lemma_node_encoding_is_injective(a, b, v);
        b.lemma_is_value_fixed(v, w);
    }
    if same_value(v, w) {
        let p = *v->Variant_case_value->Some_0;
        let q = *w->Variant_case_value->Some_0;
        assert(same_boxed_value(v->Variant_case_value, w->Variant_case_value));
        assert(same_value(p, q));
        match (a, b) {
            (WitNode::RecordValue(x), WitNode::RecordValue(y)) => {
                assert(x@ =~= y@) by {
                    assert forall|i: int| 0 <= i < x.len() implies x@[i] == y@[i] by {
                        assert(same_value(p->List_0@[i], q->List_0@[i]));
                    }
                }
            },
            (WitNode::TupleValue(x), WitNode::TupleValue(y)) => {
                assert(x@ =~= y@) by {
                    assert forall|i: int| 0 <= i < x.len() implies x@[i] == y@[i] by {
                        assert(same_value(p->List_0@[i], q->List_0@[i]));
                    }
                }
            },
            (WitNode::ListValue(x), WitNode::ListValue(y)) => {
                assert(x@ =~= y@) by {
                    assert forall|i: int| 0 <= i < x.len() implies x@[i] == y@[i] by {
                        assert(same_value(p->List_0@[i], q->List_0@[i]));
                    }
                }
            },
            (WitNode::FlagsValue(x), WitNode::FlagsValue(y)) => {
                assert(x@ =~= y@) by {
                    assert forall|i: int| 0 <= i < x.len() implies x@[i] == y@[i] by {
                        assert(same_value(p->List_0@[i], q->List_0@[i]));
                    }
                }
            },
            (WitNode::VariantValue(x), WitNode::VariantValue(y)) => {
                assert(same_value(p->Tuple_0@[0], q->Tuple_0@[0]));
                let po = p->Tuple_0@[1];
                let qo = q->Tuple_0@[1];
                assert(same_value(po, qo));
                assert(same_boxed_value(po->Option_0, qo->Option_0));
                match (x.1, y.1) {
                    (Some(_), Some(_)) => {
                        assert(same_value(*po->Option_0->Some_0, *qo->Option_0->Some_0));
                    },
                    _ => {},
                }
            },
            (WitNode::OptionValue(x), WitNode::OptionValue(y)) => {
                assert(same_boxed_value(p->Option_0, q->Option_0));
            },
            (WitNode::ResultValue(x), WitNode::ResultValue(y)) => {
                match (x, y) {
                    (Ok(_), Ok(_)) => {
                        assert(same_boxed_value(p->Result_0->Ok_0, q->Result_0->Ok_0));
                        assert(same_boxed_value(
                            p->Result_0->Ok_0->Some_0->Option_0,
                            q->Result_0->Ok_0->Some_0->Option_0,
                        ));
                    },
                    (Err(_), Err(_)) => {
                        assert(same_boxed_value(p->Result_0->Err_0, q->Result_0->Err_0));
                        assert(same_boxed_value(
                            p->Result_0->Err_0->Some_0->Option_0,
                            q->Result_0->Err_0->Some_0->Option_0,
                        ));
                    },
                    _ => {},
                }
            },
            (WitNode::Handle(x), WitNode::Handle(y)) => {
                assert(same_value(p->Tuple_0@[0], q->Tuple_0@[0]));
                assert(same_value(p->Tuple_0@[0]->Record_0@[0], q->Tuple_0@[0]->Record_0@[0]));
                assert(same_value(p->Tuple_0@[1], q->Tuple_0@[1]));
            },
            _ => {},
        }
    }
}

/// The index of the variant case that encodes `node`.
fn node_case_index(node: &WitNode) -> (r: u32)
    ensures
        r == node.case_index(),
{
    match node {
        WitNode::RecordValue(..) => 0,
        WitNode::VariantValue(..) => 1,
        WitNode::EnumValue(..) => 2,
        WitNode::FlagsValue(..) => 3,
        WitNode::TupleValue(..) => 4,
        WitNode::ListValue(..) => 5,
        WitNode::OptionValue(..) => 6,
        WitNode::ResultValue(..) => 7,
        WitNode::PrimU8(..) => 8,
        WitNode::PrimU16(..) => 9,
        WitNode::PrimU32(..) => 10,
        WitNode::PrimU64(..) => 11,
        WitNode::PrimS8(..) => 12,
        WitNode::PrimS16(..) => 13,
        WitNode::PrimS32(..) => 14,
        WitNode::PrimS64(..) => 15,
        WitNode::PrimFloat32(..) => 16,
        WitNode::PrimFloat64(..) => 17,
        WitNode::PrimChar(..) => 18,
        WitNode::PrimBool(..) => 19,
        WitNode::PrimString(..) => 20,
        WitNode::Handle(..) => 21,
    }
}

} // verus!
