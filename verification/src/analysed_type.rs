//! The shapes that a component-model value can have.
//!
//! `AnalysedType` describes a WIT type: primitives, strings, and the
//! composite lists, tuples, records, variants, enums, flags, options,
//! results and resource handles. The free functions at the end build the
//! common shapes.
use vstd::prelude::*;

verus! {

broadcast use vstd::std_specs::vec::group_vec_axioms;

/// A named field of a record type.
#[derive(Debug, PartialEq, Eq)]
pub struct NameTypePair {
    pub name: String,
    pub typ: AnalysedType,
}

/// A named case of a variant type, with an optional payload type.
#[derive(Debug, PartialEq, Eq)]
pub struct NameOptionTypePair {
    pub name: String,
    pub typ: Option<AnalysedType>,
}

/// A variant type: a list of named cases.
#[derive(Debug, PartialEq, Eq)]
pub struct TypeVariant {
    pub cases: Vec<NameOptionTypePair>,
}

/// A result type, with optional success and error payload types.
#[derive(Debug, PartialEq, Eq)]
pub struct TypeResult {
    pub ok: Option<Box<AnalysedType>>,
    pub err: Option<Box<AnalysedType>>,
}

/// An option type.
#[derive(Debug, PartialEq, Eq)]
pub struct TypeOption {
    pub inner: Box<AnalysedType>,
}

/// An enum type: a list of case names without payloads.
#[derive(Debug, Clone, PartialEq, Eq)]
pub struct TypeEnum {
    pub cases: Vec<String>,
}

/// A flags type: a list of flag names.
#[derive(Debug, Clone, PartialEq, Eq)]
pub struct TypeFlags {
    pub names: Vec<String>,
}

/// A record type: a list of named fields.
#[derive(Debug, PartialEq, Eq)]
pub struct TypeRecord {
    pub fields: Vec<NameTypePair>,
}

/// A tuple type.
#[derive(Debug, PartialEq, Eq)]
pub struct TypeTuple {
    pub items: Vec<AnalysedType>,
}

/// A list type.
#[derive(Debug, PartialEq, Eq)]
pub struct TypeList {
    pub inner: Box<AnalysedType>,
}

#[derive(Debug, Clone, PartialEq, Eq)]
pub struct TypeStr;

#[derive(Debug, Clone, PartialEq, Eq)]
pub struct TypeChr;

#[derive(Debug, Clone, PartialEq, Eq)]
pub struct TypeF64;

#[derive(Debug, Clone, PartialEq, Eq)]
pub struct TypeF32;

#[derive(Debug, Clone, PartialEq, Eq)]
pub struct TypeU64;

#[derive(Debug, Clone, PartialEq, Eq)]
pub struct TypeS64;

#[derive(Debug, Clone, PartialEq, Eq)]
pub struct TypeU32;

#[derive(Debug, Clone, PartialEq, Eq)]
pub struct TypeS32;

#[derive(Debug, Clone, PartialEq, Eq)]
pub struct TypeU16;

#[derive(Debug, Clone, PartialEq, Eq)]
pub struct TypeS16;

#[derive(Debug, Clone, PartialEq, Eq)]
pub struct TypeU8;

#[derive(Debug, Clone, PartialEq, Eq)]
pub struct TypeS8;

#[derive(Debug, Clone, PartialEq, Eq)]
pub struct TypeBool;

/// Whether a handle owns its resource or borrows it.
#[derive(Debug, PartialEq, Eq, Clone, Copy)]
pub enum AnalysedResourceMode {
    Owned,
    Borrowed,
}

/// The identifier of a resource type.
#[derive(Debug, PartialEq, Eq, Clone, Copy)]
pub struct AnalysedResourceId(pub u64);

/// A resource handle type.
#[derive(Debug, Clone, PartialEq, Eq)]
pub struct TypeHandle {
    pub resource_id: AnalysedResourceId,
    pub mode: AnalysedResourceMode,
}

/// A WIT type.
#[derive(Debug, PartialEq, Eq)]
pub enum AnalysedType {
    Variant(TypeVariant),
    Result(TypeResult),
    Option(TypeOption),
    Enum(TypeEnum),
    Flags(TypeFlags),
    Record(TypeRecord),
    Tuple(TypeTuple),
    List(TypeList),
    Str(TypeStr),
    Chr(TypeChr),
    F64(TypeF64),
    F32(TypeF32),
    U64(TypeU64),
    S64(TypeS64),
    U32(TypeU32),
    S32(TypeS32),
    U16(TypeU16),
    S16(TypeS16),
    U8(TypeU8),
    S8(TypeS8),
    Bool(TypeBool),
    Handle(TypeHandle),
}

/// Two optional boxed types are both absent, or both present and the same type.
pub open spec fn same_boxed_type(a: Option<Box<AnalysedType>>, b: Option<Box<AnalysedType>>) -> bool
    decreases a,
{
    match (a, b) {
        (None, None) => true,
        (Some(x), Some(y)) => same_type(*x, *y),
        _ => false,
    }
}

/// Two optional types are both absent, or both present and the same type.
pub open spec fn same_optional_type(a: Option<AnalysedType>, b: Option<AnalysedType>) -> bool
    decreases a,
{
    match (a, b) {
        (None, None) => true,
        (Some(x), Some(y)) => same_type(x, y),
        _ => false,
    }
}

/// Two lists of names hold the same strings in the same order.
pub open spec fn same_names(a: Seq<String>, b: Seq<String>) -> bool {
    &&& a.len() == b.len()
    &&& forall|i: int| 0 <= i < a.len() ==> #[trigger] a[i]@ == b[i]@
}

/// Structural equality of types: the same shape, with the same names, in the
/// same order, all the way down.
pub open spec fn same_type(a: AnalysedType, b: AnalysedType) -> bool
    decreases a,
{
    match (a, b) {
        (AnalysedType::Variant(x), AnalysedType::Variant(y)) => {
            &&& x.cases.len() == y.cases.len()
            &&& forall|i: int|
                0 <= i < x.cases.len() ==> {
                    &&& (#[trigger] x.cases@[i]).name@ == y.cases@[i].name@
                    &&& same_optional_type(x.cases@[i].typ, y.cases@[i].typ)
                }
        },
        (AnalysedType::Result(x), AnalysedType::Result(y)) => {
            &&& same_boxed_type(x.ok, y.ok)
            &&& same_boxed_type(x.err, y.err)
        },
        (AnalysedType::Option(x), AnalysedType::Option(y)) => same_type(*x.inner, *y.inner),
        (AnalysedType::Enum(x), AnalysedType::Enum(y)) => same_names(x.cases@, y.cases@),
        (AnalysedType::Flags(x), AnalysedType::Flags(y)) => same_names(x.names@, y.names@),
        (AnalysedType::Record(x), AnalysedType::Record(y)) => {
            &&& x.fields.len() == y.fields.len()
            &&& forall|i: int|
                0 <= i < x.fields.len() ==> {
                    &&& (#[trigger] x.fields@[i]).name@ == y.fields@[i].name@
                    &&& same_type(x.fields@[i].typ, y.fields@[i].typ)
                }
        },
        (AnalysedType::Tuple(x), AnalysedType::Tuple(y)) => {
            &&& x.items.len() == y.items.len()
            &&& forall|i: int|
                0 <= i < x.items.len() ==> same_type(#[trigger] x.items@[i], y.items@[i])
        },
        (AnalysedType::List(x), AnalysedType::List(y)) => same_type(*x.inner, *y.inner),
        (AnalysedType::Str(_), AnalysedType::Str(_)) => true,
        (AnalysedType::Chr(_), AnalysedType::Chr(_)) => true,
        (AnalysedType::F64(_), AnalysedType::F64(_)) => true,
        (AnalysedType::F32(_), AnalysedType::F32(_)) => true,
        (AnalysedType::U64(_), AnalysedType::U64(_)) => true,
        (AnalysedType::S64(_), AnalysedType::S64(_)) => true,
        (AnalysedType::U32(_), AnalysedType::U32(_)) => true,
        (AnalysedType::S32(_), AnalysedType::S32(_)) => true,
        (AnalysedType::U16(_), AnalysedType::U16(_)) => true,
        (AnalysedType::S16(_), AnalysedType::S16(_)) => true,
        (AnalysedType::U8(_), AnalysedType::U8(_)) => true,
        (AnalysedType::S8(_), AnalysedType::S8(_)) => true,
        (AnalysedType::Bool(_), AnalysedType::Bool(_)) => true,
        (AnalysedType::Handle(x), AnalysedType::Handle(y)) => x == y,
        _ => false,
    }
}

fn clone_names(names: &Vec<String>) -> (r: Vec<String>)
    ensures
        same_names(r@, names@),
{
    let mut r: Vec<String> = Vec::new();
    let mut i: usize = 0;
    while i < names.len()
        invariant
            i <= names.len(),
            r.len() == i,
            forall|j: int| 0 <= j < i ==> #[trigger] r@[j]@ == names@[j]@,
        decreases names.len() - i,
    {
        r.push(names[i].clone());
        i = i + 1;
    }
    r
}

impl Clone for AnalysedType {
    /// A structurally equal copy of this type.
    fn clone(&self) -> (r: Self)
        ensures
            same_type(r, *self),
    {
        self.duplicate()
    }
}

impl AnalysedType {
    /// A structurally equal copy of this type.
    #[verifier::loop_isolation(false)]
    pub fn duplicate(&self) -> (r: AnalysedType)
        ensures
            same_type(r, *self),
        decreases *self,
    {
        match self {
            AnalysedType::Variant(x) => {
                let mut cases: Vec<NameOptionTypePair> = Vec::new();
                let mut i: usize = 0;
                while i < x.cases.len()
                    invariant
                        i <= x.cases.len(),
                        cases.len() == i,
                        forall|j: int|
                            0 <= j < i ==> {
                                &&& (#[trigger] cases@[j]).name@ == x.cases@[j].name@
                                &&& same_optional_type(cases@[j].typ, x.cases@[j].typ)
                            },
                    decreases x.cases.len() - i,
                {
                    proof {
                        assert(decreases_to!(x.cases => x.cases@[i as int]));
                    }
                    let typ = match &x.cases[i].typ {
                        Some(t) => Some(t.duplicate()),
                        None => None,
                    };
                    cases.push(NameOptionTypePair { name: x.cases[i].name.clone(), typ });
                    i = i + 1;
                }
                AnalysedType::Variant(TypeVariant { cases })
            },
            AnalysedType::Result(x) => {
                let ok = match &x.ok {
                    Some(t) => {
                        let b = Some(Box::new((**t).duplicate()));
                        assert(same_boxed_type(b, x.ok));
                        b
                    },
                    None => {
                        assert(same_boxed_type(None, x.ok));
                        None
                    },
                };
                let err = match &x.err {
                    Some(t) => {
                        let b = Some(Box::new((**t).duplicate()));
                        assert(same_boxed_type(b, x.err));
                        b
                    },
                    None => {
                        assert(same_boxed_type(None, x.err));
                        None
                    },
                };
                AnalysedType::Result(TypeResult { ok, err })
            },
            AnalysedType::Option(x) => AnalysedType::Option(
                TypeOption { inner: Box::new((*x.inner).duplicate()) },
            ),
            AnalysedType::Enum(x) => AnalysedType::Enum(TypeEnum { cases: clone_names(&x.cases) }),
            AnalysedType::Flags(x) => AnalysedType::Flags(TypeFlags { names: clone_names(&x.names) }),
            AnalysedType::Record(x) => {
                let mut fields: Vec<NameTypePair> = Vec::new();
                let mut i: usize = 0;
                while i < x.fields.len()
                    invariant
                        i <= x.fields.len(),
                        fields.len() == i,
                        forall|j: int|
                            0 <= j < i ==> {
                                &&& (#[trigger] fields@[j]).name@ == x.fields@[j].name@
                                &&& same_type(fields@[j].typ, x.fields@[j].typ)
                            },
                    decreases x.fields.len() - i,
                {
                    proof {
                        assert(decreases_to!(x.fields => x.fields@[i as int]));
                    }
                    let typ = x.fields[i].typ.duplicate();
                    fields.push(NameTypePair { name: x.fields[i].name.clone(), typ });
                    i = i + 1;
                }
                AnalysedType::Record(TypeRecord { fields })
            },
            AnalysedType::Tuple(x) => {
                let mut items: Vec<AnalysedType> = Vec::new();
                let mut i: usize = 0;
                while i < x.items.len()
                    invariant
                        i <= x.items.len(),
                        items.len() == i,
                        forall|j: int| 0 <= j < i ==> same_type(#[trigger] items@[j], x.items@[j]),
                    decreases x.items.len() - i,
                {
                    proof {
                        assert(decreases_to!(x.items => x.items@[i as int]));
                    }
                    items.push(x.items[i].duplicate());
                    i = i + 1;
                }
                AnalysedType::Tuple(TypeTuple { items })
            },
            AnalysedType::List(x) => AnalysedType::List(
                TypeList { inner: Box::new((*x.inner).duplicate()) },
            ),
            AnalysedType::Str(_) => AnalysedType::Str(TypeStr),
            AnalysedType::Chr(_) => AnalysedType::Chr(TypeChr),
            AnalysedType::F64(_) => AnalysedType::F64(TypeF64),
            AnalysedType::F32(_) => AnalysedType::F32(TypeF32),
            AnalysedType::U64(_) => AnalysedType::U64(TypeU64),
            AnalysedType::S64(_) => AnalysedType::S64(TypeS64),
            AnalysedType::U32(_) => AnalysedType::U32(TypeU32),
            AnalysedType::S32(_) => AnalysedType::S32(TypeS32),
            AnalysedType::U16(_) => AnalysedType::U16(TypeU16),
            AnalysedType::S16(_) => AnalysedType::S16(TypeS16),
            AnalysedType::U8(_) => AnalysedType::U8(TypeU8),
            AnalysedType::S8(_) => AnalysedType::S8(TypeS8),
            AnalysedType::Bool(_) => AnalysedType::Bool(TypeBool),
            AnalysedType::Handle(x) => AnalysedType::Handle(
                TypeHandle { resource_id: x.resource_id, mode: x.mode },
            ),
        }
    }
}

/// A record field named `name` of type `typ`.
pub fn field(name: &str, typ: AnalysedType) -> (r: NameTypePair)
    ensures
        r.name@ == name@,
        r.typ == typ,
{
    NameTypePair { name: name.to_owned(), typ }
}

/// A variant case named `name` with a payload of type `typ`.
pub fn case(name: &str, typ: AnalysedType) -> (r: NameOptionTypePair)
    ensures
        r.name@ == name@,
        r.typ == Some(typ),
{
    NameOptionTypePair { name: name.to_owned(), typ: Some(typ) }
}

/// The `Bool` type.
pub fn bool() -> (r: AnalysedType)
    ensures
        r == AnalysedType::Bool(TypeBool),
{
    AnalysedType::Bool(TypeBool)
}

/// The `S8` type.
pub fn s8() -> (r: AnalysedType)
    ensures
        r == AnalysedType::S8(TypeS8),
{
    AnalysedType::S8(TypeS8)
}

/// The `S16` type.
pub fn s16() -> (r: AnalysedType)
    ensures
        r == AnalysedType::S16(TypeS16),
{
    AnalysedType::S16(TypeS16)
}

/// The `S32` type.
pub fn s32() -> (r: AnalysedType)
    ensures
        r == AnalysedType::S32(TypeS32),
{
    AnalysedType::S32(TypeS32)
}

/// The `S64` type.
pub fn s64() -> (r: AnalysedType)
    ensures
        r == AnalysedType::S64(TypeS64),
{
    AnalysedType::S64(TypeS64)
}

/// The `U8` type.
pub fn u8() -> (r: AnalysedType)
    ensures
        r == AnalysedType::U8(TypeU8),
{
    AnalysedType::U8(TypeU8)
}

/// The `U16` type.
pub fn u16() -> (r: AnalysedType)
    ensures
        r == AnalysedType::U16(TypeU16),
{
    AnalysedType::U16(TypeU16)
}

/// The `U32` type.
pub fn u32() -> (r: AnalysedType)
    ensures
        r == AnalysedType::U32(TypeU32),
{
    AnalysedType::U32(TypeU32)
}

/// The `U64` type.
pub fn u64() -> (r: AnalysedType)
    ensures
        r == AnalysedType::U64(TypeU64),
{
    AnalysedType::U64(TypeU64)
}

/// The `F32` type.
pub fn float32() -> (r: AnalysedType)
    ensures
        r == AnalysedType::F32(TypeF32),
{
    AnalysedType::F32(TypeF32)
}

/// The `F64` type.
pub fn float64() -> (r: AnalysedType)
    ensures
        r == AnalysedType::F64(TypeF64),
{
    AnalysedType::F64(TypeF64)
}

/// The `Chr` type.
pub fn chr() -> (r: AnalysedType)
    ensures
        r == AnalysedType::Chr(TypeChr),
{
    AnalysedType::Chr(TypeChr)
}

/// The `Str` type.
pub fn str() -> (r: AnalysedType)
    ensures
        r == AnalysedType::Str(TypeStr),
{
    AnalysedType::Str(TypeStr)
}

/// The type of lists of `inner`.
pub fn list(inner: AnalysedType) -> (r: AnalysedType)
    ensures
        r == AnalysedType::List(TypeList { inner: Box::new(inner) }),
{
    AnalysedType::List(TypeList { inner: Box::new(inner) })
}

/// The type of optional `inner`.
pub fn option(inner: AnalysedType) -> (r: AnalysedType)
    ensures
        r == AnalysedType::Option(TypeOption { inner: Box::new(inner) }),
{
    AnalysedType::Option(TypeOption { inner: Box::new(inner) })
}

/// The type of tuples of `items`.
pub fn tuple(items: Vec<AnalysedType>) -> (r: AnalysedType)
    ensures
        r == AnalysedType::Tuple(TypeTuple { items }),
{
    AnalysedType::Tuple(TypeTuple { items })
}

/// The type of results with both a success and an error payload.
pub fn result(ok: AnalysedType, err: AnalysedType) -> (r: AnalysedType)
    ensures
        r == AnalysedType::Result(TypeResult { ok: Some(Box::new(ok)), err: Some(Box::new(err)) }),
{
    AnalysedType::Result(TypeResult { ok: Some(Box::new(ok)), err: Some(Box::new(err)) })
}

/// The type of results with a success payload and no error payload.
pub fn result_ok(ok: AnalysedType) -> (r: AnalysedType)
    ensures
        r == AnalysedType::Result(TypeResult { ok: Some(Box::new(ok)), err: None }),
{
    AnalysedType::Result(TypeResult { ok: Some(Box::new(ok)), err: None })
}

/// The type of results with an error payload and no success payload.
pub fn result_err(err: AnalysedType) -> (r: AnalysedType)
    ensures
        r == AnalysedType::Result(TypeResult { ok: None, err: Some(Box::new(err)) }),
{
    AnalysedType::Result(TypeResult { ok: None, err: Some(Box::new(err)) })
}

/// The type of records with `fields`.
pub fn record(fields: Vec<NameTypePair>) -> (r: AnalysedType)
    ensures
        r == AnalysedType::Record(TypeRecord { fields }),
{
    AnalysedType::Record(TypeRecord { fields })
}

/// The type of variants with `cases`.
pub fn variant(cases: Vec<NameOptionTypePair>) -> (r: AnalysedType)
    ensures
        r == AnalysedType::Variant(TypeVariant { cases }),
{
    AnalysedType::Variant(TypeVariant { cases })
}

} // verus!
