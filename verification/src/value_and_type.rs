//! A value together with its type, and the conversion of Rust values into
//! such pairs.
use vstd::prelude::*;

use crate::analysed_type::{same_type, AnalysedType};
use crate::value::{has_type, lemma_same_type_has_type, same_value, Value};

verus! {

broadcast use vstd::std_specs::vec::group_vec_axioms;

/// A value and the type it is meant to have.
#[derive(Debug, Clone, PartialEq, Eq)]
pub struct ValueAndType {
    pub value: Value,
    pub typ: AnalysedType,
}

impl ValueAndType {
    /// The value has the type.
    pub open spec fn is_well_typed(&self) -> bool {
        has_type(self.value, self.typ)
    }

    /// Pairs `value` with `typ`.
    pub fn new(value: Value, typ: AnalysedType) -> (r: Self)
        ensures
            r.value == value,
            r.typ == typ,
    {
        Self { value, typ }
    }

    /// `r` is what splitting this pair into list items gives: for a list
    /// value of a list type, its items, each paired with a type structurally
    /// equal to the item type; for anything else, nothing.
    pub open spec fn is_split_into(self, r: Option<Vec<ValueAndType>>) -> bool {
        &&& r is Some <==> (self.value is List && self.typ is List)
        &&& r matches Some(items) ==> {
            &&& items.len() == self.value->List_0.len()
            &&& forall|i: int|
                0 <= i < items.len() ==> {
                    &&& (#[trigger] items@[i]).value == self.value->List_0@[i]
                    &&& same_type(items@[i].typ, *self.typ->List_0.inner)
                }
        }
    }

    /// Splits a list value of a list type into its items, each paired with
    /// the item type. Anything else gives `None`.
    pub fn into_list_items(self) -> (r: Option<Vec<ValueAndType>>)
        ensures
            self.is_split_into(r),
            self.is_well_typed() ==> (r matches Some(items) ==> forall|i: int|
                0 <= i < items.len() ==> (#[trigger] items@[i]).is_well_typed()),
    {
        match (self.value, self.typ) {
            (Value::List(items), AnalysedType::List(item_type)) => {
                let ghost old_items = items@;
                let ghost inner = *item_type.inner;
                let mut result: Vec<ValueAndType> = Vec::new();
                for item in it: items.into_iter()
                    invariant
                        it.seq() == old_items,
                        inner == *item_type.inner,
                        result.len() == it.index(),
                        forall|j: int|
                            0 <= j < result.len() ==> {
                                &&& (#[trigger] result@[j]).value == old_items[j]
                                &&& same_type(result@[j].typ, inner)
                            },
                {
                    result.push(ValueAndType::new(item, (*item_type.inner).duplicate()));
                }
                proof {
                    assert forall|j: int| 0 <= j < result.len() && has_type(self.value, self.typ)
                        implies (#[trigger] result@[j]).is_well_typed() by {
                        lemma_same_type_has_type(old_items[j], result@[j].typ, inner);
                    }
                }
                Some(result)
            },
            _ => None,
        }
    }
}

impl From<ValueAndType> for Value {
    fn from(value_and_type: ValueAndType) -> (r: Self) {
        value_and_type.value
    }
}

impl vstd::std_specs::convert::FromSpecImpl<ValueAndType> for Value {
    open spec fn obeys_from_spec() -> bool {
        true
    }

    open spec fn from_spec(value_and_type: ValueAndType) -> Self {
        value_and_type.value
    }
}

impl From<ValueAndType> for AnalysedType {
    fn from(value_and_type: ValueAndType) -> (r: Self) {
        value_and_type.typ
    }
}

impl vstd::std_specs::convert::FromSpecImpl<ValueAndType> for AnalysedType {
    open spec fn obeys_from_spec() -> bool {
        true
    }

    open spec fn from_spec(value_and_type: ValueAndType) -> Self {
        value_and_type.typ
    }
}

/// A Rust type whose values convert into component-model values of one type.
pub trait IntoValue: Sized {
    /// `v` is the value that `self` converts into.
    spec fn is_value(self, v: Value) -> bool;

    /// `t` is the type of the values that this type converts into.
    spec fn is_type(t: AnalysedType) -> bool;

    /// Every value of this type converts into one value, up to structural
    /// equality.
    spec fn converts_deterministically() -> bool;

    /// Where the conversion is deterministic, the values that one Rust value
    /// converts into are structurally equal.
    proof fn lemma_is_value_fixed(self, v: Value, w: Value)
        requires
            self.is_value(v),
            self.is_value(w),
        ensures
            Self::converts_deterministically() ==> same_value(v, w),
    ;

    /// The type of the values is fixed up to structural equality: given one
    /// such type, the others are exactly the types structurally equal to it.
    proof fn lemma_is_type_fixed(a: AnalysedType, b: AnalysedType)
        requires
            Self::is_type(a),
        ensures
            Self::is_type(b) <==> same_type(b, a),
    ;

    /// Converts `self`; the result has every type that `get_type` can
    /// return.
    fn into_value(self) -> (v: Value)
        ensures
            self.is_value(v),
            forall|t: AnalysedType| #[trigger] Self::is_type(t) ==> has_type(v, t),
    ;

    /// The type of the values that this type converts into.
    fn get_type() -> (t: AnalysedType)
        ensures
            Self::is_type(t),
    ;
}

/// A Rust value that converts into a value paired with its type.
pub trait IntoValueAndType {
    /// `r` is the pair that `self` converts into.
    spec fn is_value_and_type(self, r: ValueAndType) -> bool;

    /// Converts `self` into a value paired with its type.
    fn into_value_and_type(self) -> (r: ValueAndType)
        ensures
            self.is_value_and_type(r),
            r.is_well_typed(),
    ;
}

impl<T: IntoValue> IntoValueAndType for T {
    open spec fn is_value_and_type(self, r: ValueAndType) -> bool {
        self.is_value(r.value) && T::is_type(r.typ)
    }

    fn into_value_and_type(self) -> (r: ValueAndType) {
        ValueAndType::new(self.into_value(), Self::get_type())
    }
}

/// Splitting the pair that a vector converts into gives, item by item, the
/// pairs that its elements convert into.
pub proof fn lemma_list_items_of_converted_vector<T: IntoValue>(
    elements: Vec<T>,
    pair: ValueAndType,
    items: Option<Vec<ValueAndType>>,
)
    requires
        elements.is_value_and_type(pair),
        pair.is_split_into(items),
    ensures
        items matches Some(items) && items.len() == elements.len() && forall|i: int|
            0 <= i < elements.len() ==> (#[trigger] elements@[i]).is_value_and_type(items@[i]),
{
    let items = items->Some_0;
    let inner = *pair.typ->List_0.inner;
    assert forall|i: int| 0 <= i < elements.len() implies (#[trigger] elements@[i]).is_value_and_type(
        items@[i],
    ) by {
        T::lemma_is_type_fixed(inner, items@[i].typ);
    }
}

} // verus!
