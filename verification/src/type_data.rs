//! Per-type serialization exclusion table: the positions, among a type's
//! reflected fields, that a generic field-serializing traversal must skip.

use std::collections::HashSet;
use vstd::prelude::*;
use vstd::std_specs::iter::IteratorSpec;

use crate::reflect::{FromType, Reflect};

verus! {

/// Implemented by types which require additional data to be serialized as
/// expected via the reflection API: for example, structs may contain fields
/// which are reflected but not to be serialized.
pub trait ReflectSerializableWithData {
    /// The set of reflected-field positions the implementing type declares
    /// as excluded from serialization.
    spec fn spec_serialization_data() -> Set<usize>;

    /// The provider function: the exclusion table the type declares.
    fn get_serialization_data() -> (data: SerializationData)
        ensures
            data@ == Self::spec_serialization_data(),
    ;
}

/// Contains data relevant to the automatic reflect-powered serialization of
/// a type: the set of reflected-field positions to omit.
///
/// Indices are assigned only to reflected members; members that are not
/// reflected are skipped and take no position. The table is immutable after
/// construction and is queried positionally during serialization traversal.
#[derive(Debug)]
pub struct SerializationData {
    ignored_field_indices: HashSet<usize>,
}

impl View for SerializationData {
    type V = Set<usize>;

    closed spec fn view(&self) -> Set<usize> {
        self.ignored_field_indices@
    }
}

/// Relies on `Clone` for `std::collections::HashSet`: the duplicate holds
/// exactly the keys of the original, each `usize` key cloned to itself.
#[verifier::external_body]
fn clone_index_set(indices: &HashSet<usize>) -> (cloned: HashSet<usize>)
    ensures
        cloned@ == indices@,
{
    indices.clone()
}

impl Clone for SerializationData {
    /// The duplicate answers every query as the original does.
    fn clone(&self) -> (cloned: Self)
        ensures
            cloned@ == self@,
    {
        SerializationData { ignored_field_indices: clone_index_set(&self.ignored_field_indices) }
    }
}

impl SerializationData {
    /// Creates a new `SerializationData` instance given `ignored_iter`, the
    /// iterator of member indices to be ignored during serialization.
    ///
    /// Duplicates in the input collapse and its order is irrelevant: the
    /// stored set holds an index exactly when the iterator yields it.
    pub fn new<I: Iterator<Item = usize>>(ignored_iter: I) -> (data: Self)
        requires
            ignored_iter.obeys_prophetic_iter_laws(),
            ignored_iter.decrease() is Some,
        ensures
            data@ == ignored_iter.remaining().to_set(),
            forall|index: usize|
                data@.contains(index) <==> ignored_iter.remaining().contains(index),
    {
        let ghost initial: I = ignored_iter;
        let ghost mut done: Seq<usize> = Seq::empty();
        let mut iter = ignored_iter;
        let mut ignored_field_indices: HashSet<usize> = HashSet::new();
        loop
            invariant
                iter.obeys_prophetic_iter_laws(),
                iter.decrease() is Some,
                done + iter.remaining() == initial.remaining(),
                ignored_field_indices@ == done.to_set(),
            ensures
                ignored_field_indices@ == initial.remaining().to_set(),
            decreases iter.decrease()->0,
        {
            match iter.next() {
                Some(index) => {
                    ignored_field_indices.insert(index);
                    proof {
                        Seq::lemma_push_to_set_commute(done, index);
                        done = done.push(index);
                        assert(done + iter.remaining() =~= initial.remaining());
                    }
                },
                None => {
                    proof {
                        assert(done =~= initial.remaining());
                    }
                    break;
                },
            }
        }
        Self { ignored_field_indices }
    }

    /// Returns true if the given index corresponds to a field meant to be
    /// ignored in serialization.
    ///
    /// Total over all indices: a position beyond the type's reflected-field
    /// count is simply absent from the set, so the query returns false.
    pub fn is_ignored_field(&self, index: usize) -> (ignored: bool)
        ensures
            ignored == self@.contains(index),
    {
        self.ignored_field_indices.contains(&index)
    }
}

impl<T: ReflectSerializableWithData + Reflect> FromType<T> for SerializationData {
    open spec fn from_type_post(data: &Self) -> bool {
        data@ == T::spec_serialization_data()
    }

    fn from_type() -> Self {
        T::get_serialization_data()
    }
}

/// An index is stored by construction exactly when the constructing sequence
/// of indices contains it; in particular duplicates in the input collapse,
/// and an index the input never yields is reported as not ignored.
pub proof fn lemma_membership_matches_construction(indices: Seq<usize>, index: usize)
    ensures
        indices.to_set().contains(index) <==> indices.contains(index),
{
}

/// Construction is order-independent: any two orderings of the same indices
/// yield tables with identical query results for all indices.
pub proof fn lemma_construction_order_independent(
    indices_a: Seq<usize>,
    indices_b: Seq<usize>,
)
    requires
        indices_a.to_multiset() == indices_b.to_multiset(),
    ensures
        indices_a.to_set() == indices_b.to_set(),
{
    assert forall|index: usize| indices_a.contains(index) <==> indices_b.contains(index) by {
        vstd::seq_lib::to_multiset_contains(indices_a, index);
        vstd::seq_lib::to_multiset_contains(indices_b, index);
    }
    assert(indices_a.to_set() =~= indices_b.to_set());
}

/// A table constructed from an empty iterator ignores nothing: every index
/// is reported as not ignored.
pub proof fn lemma_empty_construction_ignores_nothing(index: usize)
    ensures
        !Seq::<usize>::empty().to_set().contains(index),
{
}

} // verus!
