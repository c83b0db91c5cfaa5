//! Attribute-level result states.
//!
//! A bare `Vec` cannot say why it is empty: the attribute may be missing, it
//! may carry no values, or the lookup itself may have failed. A caller has to
//! tell "this printer offers no choices" from "this printer never mentioned
//! the attribute", so these states are kept apart here.

use vstd::prelude::*;
use vstd::string::*;

use crate::provider::value::IppValue;

verus! {

/// What came back when an attribute was queried.
#[derive(Clone, Debug, PartialEq, Eq)]
pub enum AttributeState<T> {
    /// The attribute was present and carried values.
    Present(Vec<T>),
    /// The attribute was present but held no values.
    Empty,
    /// The printer did not advertise the attribute at all.
    ///
    /// This is not a statement about capability: an attribute that was never
    /// advertised says nothing about whether the underlying feature works.
    NotAdvertised,
}

/// What an [`AttributeState`] says.
pub enum AttributeView<T> {
    Present(Seq<T>),
    Empty,
    NotAdvertised,
}

impl<T> View for AttributeState<T> {
    type V = AttributeView<T>;

    open spec fn view(&self) -> AttributeView<T> {
        match self {
            AttributeState::Present(values) => AttributeView::Present(values@),
            AttributeState::Empty => AttributeView::Empty,
            AttributeState::NotAdvertised => AttributeView::NotAdvertised,
        }
    }
}

impl<T> AttributeView<T> {
    /// The values, none when none were present.
    pub open spec fn listed(self) -> Seq<T> {
        match self {
            AttributeView::Present(values) => values,
            _ => seq![],
        }
    }
}

impl<T> AttributeState<T> {
    /// The values, if any were present. `Empty` and `NotAdvertised` both
    /// yield `None`; use the variant itself to tell them apart.
    pub fn values(&self) -> (values: Option<&[T]>)
        ensures
            values is Some == (self@ is Present),
            values matches Some(found) ==> AttributeView::Present(found@) == self@,
    {
        match self {
            AttributeState::Present(values) => Some(values.as_slice()),
            AttributeState::Empty | AttributeState::NotAdvertised => None,
        }
    }

    /// Whether the printer said anything at all about this attribute.
    pub fn is_advertised(&self) -> (advertised: bool)
        ensures
            advertised == !(self@ is NotAdvertised),
    {
        !matches!(self, AttributeState::NotAdvertised)
    }

    /// The state with `f` applied to each value, in order.
    pub fn map<U, F: FnMut(T) -> U>(self, f: F) -> (mapped: AttributeState<U>)
        requires
            forall|i: int|
                0 <= i < self@.listed().len() ==> call_requires(f, (#[trigger] self@.listed()[i],)),
        ensures
            mapped@ is Present == self@ is Present,
            mapped@ is Empty == self@ is Empty,
            mapped@.listed().len() == self@.listed().len(),
            forall|i: int|
                0 <= i < self@.listed().len() ==> call_ensures(
                    f,
                    (#[trigger] self@.listed()[i],),
                    mapped@.listed()[i],
                ),
    {
        let ghost listed = self@.listed();
        match self {
            AttributeState::Present(values) => {
                assert forall|i: int| 0 <= i < values@.len() implies call_requires(
                    f,
                    (#[trigger] values@[i],),
                ) by {
                    assert(values@[i] == listed[i]);
                }
                AttributeState::Present(map_values(values, f))
            },
            AttributeState::Empty => AttributeState::Empty,
            AttributeState::NotAdvertised => AttributeState::NotAdvertised,
        }
    }

    /// Build a state from values, treating an empty collection as `Empty`
    /// rather than as `Present(vec![])`.
    ///
    /// Only use this when the attribute is known to exist; a missing
    /// attribute must be reported as `NotAdvertised` by the caller.
    pub fn from_present(values: Vec<T>) -> (state: Self)
        ensures
            state@ == (if values@.len() == 0 {
                AttributeView::Empty
            } else {
                AttributeView::Present(values@)
            }),
    {
        if values.len() == 0 {
            AttributeState::Empty
        } else {
            AttributeState::Present(values)
        }
    }
}

fn map_values<T, U, F: FnMut(T) -> U>(values: Vec<T>, f: F) -> (mapped: Vec<U>)
    requires
        forall|i: int| 0 <= i < values@.len() ==> call_requires(f, (#[trigger] values@[i],)),
    ensures
        mapped@.len() == values@.len(),
        forall|i: int|
            0 <= i < values@.len() ==> call_ensures(f, (#[trigger] values@[i],), mapped@[i]),
{
    let mut f = f;
    let ghost f0 = f;
    let ghost all = values@;
    let mut mapped: Vec<U> = Vec::new();
    for value in iter: values
        invariant
            f == f0,
            iter.seq() == all,
            mapped@.len() == iter.index(),
            forall|i: int| 0 <= i < all.len() ==> call_requires(f0, (#[trigger] all[i],)),
            forall|i: int|
                0 <= i < iter.index() ==> call_ensures(f0, (#[trigger] all[i],), mapped@[i]),
    {
        let result = f(value);
        mapped.push(result);
    }
    mapped
}

/// Whether any of `values` permits `candidate`.
pub open spec fn any_accepts(values: Seq<IppValue>, candidate: i32) -> bool {
    exists|i: int| 0 <= i < values.len() && (#[trigger] values[i])@.accepts(candidate)
}

/// Whether any of `values` carries exactly the text `candidate`.
pub open spec fn any_says(values: Seq<IppValue>, candidate: Seq<char>) -> bool {
    exists|i: int| 0 <= i < values.len() && (#[trigger] values[i])@.text() == Some(candidate)
}

impl AttributeState<IppValue> {
    /// Whether any advertised value permits `candidate`.
    ///
    /// Ranges are honoured, so `copies` advertised as 1-9999 accepts 1.
    /// A missing or empty attribute accepts nothing: absence of evidence is
    /// not treated as permission.
    pub fn accepts_integer(&self, candidate: i32) -> (accepted: bool)
        ensures
            accepted == any_accepts(self@.listed(), candidate),
    {
        if let AttributeState::Present(values) = self {
            let mut index: usize = 0;
            while index < values.len()
                invariant
                    self@.listed() == values@,
                    index <= values@.len(),
                    forall|i: int| 0 <= i < index ==> !(#[trigger] values@[i])@.accepts(candidate),
                decreases values@.len() - index,
            {
                if values[index].accepts_integer(candidate) {
                    assert(self@.listed()[index as int]@.accepts(candidate));
                    return true;
                }
                index += 1;
            }
        }
        false
    }

    /// Whether the given keyword/name/text value was advertised.
    pub fn contains_str(&self, candidate: &str) -> (advertised: bool)
        ensures
            advertised == any_says(self@.listed(), candidate@),
    {
        if let AttributeState::Present(values) = self {
            let mut index: usize = 0;
            while index < values.len()
                invariant
                    self@.listed() == values@,
                    index <= values@.len(),
                    forall|i: int|
                        0 <= i < index ==> (#[trigger] values@[i])@.text() != Some(candidate@),
                decreases values@.len() - index,
            {
                if values[index].has_text(candidate) {
                    assert(self@.listed()[index as int]@.text() == Some(candidate@));
                    return true;
                }
                index += 1;
            }
        }
        false
    }
}

/// A state says what it is: present with exactly its values, empty, or not
/// advertised, and only a present one lists any.
pub proof fn law_attribute_states_are_kept_apart<T>(state: AttributeState<T>, values: Seq<T>)
    ensures
        state@ is Present <==> state is Present,
        state@ is Empty <==> state is Empty,
        state@ is NotAdvertised <==> state is NotAdvertised,
        state matches AttributeState::Present(held) ==> state@.listed() == held@,
        AttributeView::Present(values).listed() == values,
        AttributeView::<T>::Empty.listed() == Seq::<T>::empty(),
        AttributeView::<T>::NotAdvertised.listed() == Seq::<T>::empty(),
{
}

/// Every value is looked at, wherever it stands: two stretches permit what
/// either permits, a single value what it permits itself, and no values
/// nothing.
pub proof fn law_any_value_may_permit(
    first: Seq<IppValue>,
    second: Seq<IppValue>,
    one: IppValue,
    candidate: i32,
)
    ensures
        any_accepts(first + second, candidate) <==> any_accepts(first, candidate) || any_accepts(
            second,
            candidate,
        ),
        any_accepts(seq![one], candidate) <==> one@.accepts(candidate),
        !any_accepts(seq![], candidate),
{
    let all = first + second;
    if any_accepts(first, candidate) {
        let i = choose|i: int| 0 <= i < first.len() && (#[trigger] first[i])@.accepts(candidate);
        assert(all[i]@.accepts(candidate));
    }
    if any_accepts(second, candidate) {
        let i = choose|i: int| 0 <= i < second.len() && (#[trigger] second[i])@.accepts(candidate);
        assert(all[first.len() + i]@.accepts(candidate));
    }
    if any_accepts(all, candidate) {
        let i = choose|i: int| 0 <= i < all.len() && (#[trigger] all[i])@.accepts(candidate);
        if i < first.len() {
            assert(first[i]@.accepts(candidate));
        } else {
            assert(second[i - first.len()]@.accepts(candidate));
        }
    }
    assert(seq![one][0] == one);
}

/// Every value is compared, wherever it stands: two stretches say what either
/// says, a single value what it says itself, and no values nothing.
pub proof fn law_any_value_may_say_it(
    first: Seq<IppValue>,
    second: Seq<IppValue>,
    one: IppValue,
    candidate: Seq<char>,
)
    ensures
        any_says(first + second, candidate) <==> any_says(first, candidate) || any_says(
            second,
            candidate,
        ),
        any_says(seq![one], candidate) <==> one@.text() == Some(candidate),
        !any_says(seq![], candidate),
{
    let all = first + second;
    if any_says(first, candidate) {
        let i = choose|i: int|
            0 <= i < first.len() && (#[trigger] first[i])@.text() == Some(candidate);
        assert(all[i]@.text() == Some(candidate));
    }
    if any_says(second, candidate) {
        let i = choose|i: int|
            0 <= i < second.len() && (#[trigger] second[i])@.text() == Some(candidate);
        assert(all[first.len() + i]@.text() == Some(candidate));
    }
    if any_says(all, candidate) {
        let i = choose|i: int| 0 <= i < all.len() && (#[trigger] all[i])@.text() == Some(candidate);
        if i < first.len() {
            assert(first[i]@.text() == Some(candidate));
        } else {
            assert(second[i - first.len()]@.text() == Some(candidate));
        }
    }
    assert(seq![one][0] == one);
}

} // verus!
