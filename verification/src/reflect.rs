//! Core pieces of the reflection model: the error taxonomy, the base
//! reflection trait, type-keyed construction, and type-erased opaque values.

use vstd::prelude::*;

verus! {

/// Failure outcomes of reflection operations.
#[derive(Clone, Copy, Debug, PartialEq, Eq, Structural)]
pub enum ReflectError {
    /// Structural (field/variant/element) access was attempted against a
    /// value registered as an atomic, opaque unit.
    NotAComposite,
    /// A type-erased value was converted into a concrete type whose identity
    /// does not match the value's underlying type identity.
    TypeMismatch,
}

/// Base reflection capability: every reflected type reports the identity it
/// was registered under.
pub trait Reflect {
    fn reflected_type_id(&self) -> u64;
}

/// Type-keyed construction: build `Self` from the compile-time type `T`,
/// the generic capability-lookup glue of the reflection registry.
pub trait FromType<T> {
    /// What the built value looks like: each implementation ties the result
    /// to the data the type `T` provides.
    spec fn from_type_post(data: &Self) -> bool;

    fn from_type() -> (data: Self) where Self: Sized
        ensures
            Self::from_type_post(&data),
    ;
}

/// A type-erased value registered through value reflection: an atomic unit
/// carrying its type identity and an opaque payload, with no field or
/// variant decomposition.
#[derive(Debug)]
pub struct ReflectedValue {
    type_id: u64,
    payload: Vec<u8>,
}

impl ReflectedValue {
    /// The type identity the erased value carries.
    pub closed spec fn spec_type_id(&self) -> u64 {
        self.type_id
    }

    /// The opaque payload encoding the erased value.
    pub closed spec fn spec_payload(&self) -> Seq<u8> {
        self.payload@
    }

    /// Erases a value: its registered type identity together with the
    /// payload that encodes it.
    pub fn new_opaque(type_id: u64, payload: Vec<u8>) -> (erased: ReflectedValue)
        ensures
            erased.spec_type_id() == type_id,
            erased.spec_payload() == payload@,
    {
        ReflectedValue { type_id, payload }
    }

    pub fn type_id(&self) -> (id: u64)
        ensures
            id == self.spec_type_id(),
    {
        self.type_id
    }

    pub fn payload(&self) -> (bytes: &Vec<u8>)
        ensures
            bytes@ == self.spec_payload(),
    {
        &self.payload
    }

    /// Struct-style access. A value registered as opaque has no fields, so
    /// every attempt fails with `NotAComposite`.
    pub fn field(&self, index: usize) -> (result: Result<&ReflectedValue, ReflectError>)
        ensures
            result == Err::<&ReflectedValue, ReflectError>(ReflectError::NotAComposite),
    {
        let _ = index;
        Err(ReflectError::NotAComposite)
    }

    /// Enum-style access. A value registered as opaque has no variants, so
    /// every attempt fails with `NotAComposite`.
    pub fn variant_name(&self) -> (result: Result<&str, ReflectError>)
        ensures
            result == Err::<&str, ReflectError>(ReflectError::NotAComposite),
    {
        Err(ReflectError::NotAComposite)
    }

    /// List-style access. A value registered as opaque has no elements, so
    /// every attempt fails with `NotAComposite`.
    pub fn element(&self, index: usize) -> (result: Result<&ReflectedValue, ReflectError>)
        ensures
            result == Err::<&ReflectedValue, ReflectError>(ReflectError::NotAComposite),
    {
        let _ = index;
        Err(ReflectError::NotAComposite)
    }
}

} // verus!
