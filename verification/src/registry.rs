//! Process-wide reflection registry model: a capability table keyed by type
//! identity, populated during an explicit initialization phase and read-only
//! afterwards.

use std::collections::HashMap;
use vstd::prelude::*;

verus! {

/// The closed enumeration of capabilities a registered value type may
/// request. Each one delegates to the type's native operation.
#[derive(Clone, Copy, Debug, PartialEq, Eq, Structural)]
pub enum Capability {
    /// Debug-format the value with its native formatter.
    DebugPrint,
    /// Compare two values with the native equality operator.
    PartialEquality,
    /// Serialize the value with its native routine.
    Serialize,
    /// Deserialize a value with its native routine.
    Deserialize,
    /// Construct the native default value.
    DefaultConstruct,
}

/// A fixed set of requested capabilities, immutable once a registration is
/// built from it.
#[derive(Clone, Copy, Debug, PartialEq, Eq, Structural)]
pub struct CapabilitySet {
    debug_print: bool,
    partial_equality: bool,
    serialize: bool,
    deserialize: bool,
    default_construct: bool,
}

impl CapabilitySet {
    /// Whether the set holds the given capability.
    pub closed spec fn contains(self, capability: Capability) -> bool {
        match capability {
            Capability::DebugPrint => self.debug_print,
            Capability::PartialEquality => self.partial_equality,
            Capability::Serialize => self.serialize,
            Capability::Deserialize => self.deserialize,
            Capability::DefaultConstruct => self.default_construct,
        }
    }

    /// The empty capability set.
    pub fn empty() -> (capabilities: CapabilitySet)
        ensures
            forall|c: Capability| !capabilities.contains(c),
    {
        CapabilitySet {
            debug_print: false,
            partial_equality: false,
            serialize: false,
            deserialize: false,
            default_construct: false,
        }
    }

    /// The set extended by one requested capability.
    pub fn with(self, capability: Capability) -> (capabilities: CapabilitySet)
        ensures
            forall|c: Capability|
                capabilities.contains(c) <==> (c == capability || self.contains(c)),
    {
        let mut extended = self;
        match capability {
            Capability::DebugPrint => {
                extended.debug_print = true;
            },
            Capability::PartialEquality => {
                extended.partial_equality = true;
            },
            Capability::Serialize => {
                extended.serialize = true;
            },
            Capability::Deserialize => {
                extended.deserialize = true;
            },
            Capability::DefaultConstruct => {
                extended.default_construct = true;
            },
        }
        extended
    }

    /// Whether the set holds the given capability.
    pub fn has(&self, capability: Capability) -> (present: bool)
        ensures
            present == self.contains(capability),
    {
        match capability {
            Capability::DebugPrint => self.debug_print,
            Capability::PartialEquality => self.partial_equality,
            Capability::Serialize => self.serialize,
            Capability::Deserialize => self.deserialize,
            Capability::DefaultConstruct => self.default_construct,
        }
    }
}

/// One opaque-value registration: the registered type's identity, the
/// requested capability set, and whether the companion registration that
/// converts a type-erased value back into a concrete instance was made.
#[derive(Clone, Copy, Debug, PartialEq, Eq, Structural)]
pub struct ValueRegistration {
    /// Identity of the registered type.
    pub type_id: u64,
    /// The capabilities requested for the type.
    pub capabilities: CapabilitySet,
    /// Whether the companion from-reflect conversion was registered.
    pub from_reflect: bool,
}

/// The registry: a map from type identity to that type's registration,
/// additive only. Looked up by generic reflection code that cannot know
/// concrete types at compile time.
pub struct TypeRegistry {
    entries: HashMap<u64, ValueRegistration>,
}

impl View for TypeRegistry {
    type V = Map<u64, ValueRegistration>;

    closed spec fn view(&self) -> Map<u64, ValueRegistration> {
        self.entries@
    }
}

impl TypeRegistry {
    /// An empty registry, holding no registration.
    pub fn new() -> (registry: TypeRegistry)
        ensures
            registry@ == Map::<u64, ValueRegistration>::empty(),
    {
        TypeRegistry { entries: HashMap::new() }
    }

    /// Records a registration under its type identity. A registration made
    /// for an identity already present replaces the earlier one wholesale.
    pub fn register(&mut self, registration: ValueRegistration)
        ensures
            final(self)@ == old(self)@.insert(registration.type_id, registration),
    {
        self.entries.insert(registration.type_id, registration);
    }

    /// Type-keyed capability query: the registration made for the given
    /// type identity, or `None` if the type was never registered.
    pub fn get(&self, type_id: u64) -> (registration: Option<&ValueRegistration>)
        ensures
            match registration {
                Some(found) => self@.contains_key(type_id) && *found == self@[type_id],
                None => !self@.contains_key(type_id),
            },
    {
        self.entries.get(&type_id)
    }
}

} // verus!
