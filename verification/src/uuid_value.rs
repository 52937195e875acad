//! Opaque-value registration of the external UUID identifier type.
//!
//! The UUID participates in reflection as an atomic value: its 128 bits,
//! held as a plain integer, with every capability delegated to the `uuid`
//! crate's native operations through a small set of trusted wrappers.

use vstd::bytes::{
    lemma_auto_spec_u128_to_from_le_bytes, spec_u128_from_le_bytes, spec_u128_to_le_bytes,
    u128_from_le_bytes, u128_to_le_bytes,
};
use vstd::prelude::*;

use crate::reflect::{Reflect, ReflectError, ReflectedValue};
use crate::registry::{Capability, CapabilitySet, TypeRegistry, ValueRegistration};
use crate::type_data::{ReflectSerializableWithData, SerializationData};

verus! {

/// Type identity under which the UUID value type is registered.
pub const UUID_TYPE_ID: u64 = 0x7575_6964;

/// The lowercase hexadecimal digit for a nibble.
pub open spec fn hex_digit_char(nibble: u8) -> char {
    match nibble {
        0 => '0',
        1 => '1',
        2 => '2',
        3 => '3',
        4 => '4',
        5 => '5',
        6 => '6',
        7 => '7',
        8 => '8',
        9 => '9',
        10 => 'a',
        11 => 'b',
        12 => 'c',
        13 => 'd',
        14 => 'e',
        _ => 'f',
    }
}

/// The `index`-th nibble of the 128-bit value, most significant first.
pub open spec fn uuid_nibble(value: u128, index: int) -> u8 {
    ((value >> ((124 - 4 * index) as u128)) & 0xf) as u8
}

/// The positions of the four hyphens in the hyphenated UUID text.
pub open spec fn is_hyphen_position(position: int) -> bool {
    position == 8 || position == 13 || position == 18 || position == 23
}

/// Which nibble stands at a non-hyphen position of the hyphenated text:
/// the position less the number of hyphens that precede it.
pub open spec fn nibble_index_at(position: int) -> int {
    if position < 8 {
        position
    } else if position < 13 {
        position - 1
    } else if position < 18 {
        position - 2
    } else if position < 23 {
        position - 3
    } else {
        position - 4
    }
}

/// The canonical hyphenated encoding of a UUID value: 36 characters, the 32
/// nibbles as lowercase hexadecimal digits, most significant first, with
/// hyphens after the 8th, 12th, 16th and 20th digit.
pub open spec fn uuid_hyphenated(value: u128) -> Seq<char> {
    Seq::new(
        36,
        |position: int|
            if is_hyphen_position(position) {
                '-'
            } else {
                hex_digit_char(uuid_nibble(value, nibble_index_at(position)))
            },
    )
}

/// The value the UUID parser reads out of a piece of text, if any.
pub uninterp spec fn uuid_parse_of(text: Seq<char>) -> Option<u128>;

/// Relies on `uuid::Uuid`'s `Display` implementation, reached through
/// `ToString`: the lowercase hyphenated encoding of the value's 128 bits,
/// most significant nibble first.
#[verifier::external_body]
fn uuid_to_hyphenated(value: u128) -> (text: String)
    ensures
        text@ == uuid_hyphenated(value),
{
    uuid::Uuid::from_u128(value).to_string()
}

/// Relies on `uuid::Uuid`'s `Debug` implementation, which formats exactly as
/// `Display` does: the lowercase hyphenated encoding of the 128 bits.
#[verifier::external_body]
fn uuid_debug_text(value: u128) -> (text: String)
    ensures
        text@ == uuid_hyphenated(value),
{
    format!("{:?}", uuid::Uuid::from_u128(value))
}

/// Relies on `uuid::Uuid::parse_str`: the result depends on the characters
/// alone, and text in any format the crate itself generates parses back to
/// the encoded value; in particular the hyphenated encoding of a value
/// parses to that value.
#[verifier::external_body]
fn uuid_parse(text: &str) -> (parsed: Option<u128>)
    ensures
        parsed == uuid_parse_of(text@),
        forall|value: u128| text@ == uuid_hyphenated(value) ==> parsed == Some(value),
{
    match uuid::Uuid::parse_str(text) {
        Ok(parsed) => Some(parsed.as_u128()),
        Err(_) => None,
    }
}

/// Relies on `PartialEq` for `uuid::Uuid`, derived over the 16 bytes, and on
/// `uuid::Uuid::from_u128` building those bytes from the 128 bits: two UUIDs
/// are equal exactly when their 128-bit values are.
#[verifier::external_body]
fn uuid_native_eq(left: u128, right: u128) -> (equal: bool)
    ensures
        equal == (left == right),
{
    uuid::Uuid::from_u128(left) == uuid::Uuid::from_u128(right)
}

/// Relies on `Default` for `uuid::Uuid`: the nil UUID, all 128 bits zero.
#[verifier::external_body]
fn uuid_native_default() -> (value: u128)
    ensures
        value == 0,
{
    uuid::Uuid::default().as_u128()
}

/// The UUID identifier type as the reflection system sees it: a single
/// atomic 128-bit value with no internal structure to traverse.
#[derive(Clone, Copy, Debug, PartialEq, Eq, Structural)]
pub struct UuidValue {
    value: u128,
}

impl UuidValue {
    /// The 128 bits of the UUID.
    pub closed spec fn spec_value(&self) -> u128 {
        self.value
    }

    pub fn new(value: u128) -> (uuid: UuidValue)
        ensures
            uuid.spec_value() == value,
    {
        UuidValue { value }
    }

    pub fn value(&self) -> (value: u128)
        ensures
            value == self.spec_value(),
    {
        self.value
    }

    /// Default-construction capability, delegating to the native default:
    /// the nil UUID.
    pub fn default_value() -> (uuid: UuidValue)
        ensures
            uuid.spec_value() == 0,
    {
        UuidValue { value: uuid_native_default() }
    }

    /// Equality capability, delegating to the native equality operator.
    pub fn reflect_partial_eq(&self, other: &UuidValue) -> (equal: bool)
        ensures
            equal == (self.spec_value() == other.spec_value()),
    {
        uuid_native_eq(self.value, other.value)
    }

    /// Debug capability, delegating to the native debug formatter.
    pub fn reflect_debug(&self) -> (text: String)
        ensures
            text@ == uuid_hyphenated(self.spec_value()),
    {
        uuid_debug_text(self.value)
    }

    /// Serialization capability, delegating to the native routine: the
    /// canonical hyphenated text.
    pub fn serialize(&self) -> (text: String)
        ensures
            text@ == uuid_hyphenated(self.spec_value()),
    {
        uuid_to_hyphenated(self.value)
    }

    /// Deserialization capability, delegating to the native parser. Text the
    /// parser does not accept yields `None`; the hyphenated encoding of any
    /// value yields that value back.
    pub fn deserialize(text: &str) -> (uuid: Option<UuidValue>)
        ensures
            match uuid_parse_of(text@) {
                Some(value) => uuid matches Some(parsed) && parsed.spec_value() == value,
                None => uuid is None,
            },
            forall|value: u128|
                text@ == uuid_hyphenated(value) ==> (uuid matches Some(parsed)
                    && parsed.spec_value() == value),
    {
        match uuid_parse(text) {
            Some(value) => Some(UuidValue { value }),
            None => None,
        }
    }

    /// Erases the UUID into a type-erased reflected value: its registered
    /// type identity and, as opaque payload, the little-endian bytes of the
    /// 128-bit value.
    pub fn to_reflected(&self) -> (erased: ReflectedValue)
        ensures
            erased.spec_type_id() == UUID_TYPE_ID,
            erased.spec_payload() == spec_u128_to_le_bytes(self.spec_value()),
    {
        ReflectedValue::new_opaque(UUID_TYPE_ID, u128_to_le_bytes(self.value))
    }

    /// The companion from-reflect conversion: a type-erased value turns back
    /// into a concrete UUID exactly when its underlying type identity is the
    /// UUID's and its payload has the UUID's width; any other erased value
    /// is refused with `TypeMismatch`.
    pub fn from_reflected(erased: &ReflectedValue) -> (uuid: Result<UuidValue, ReflectError>)
        ensures
            erased.spec_type_id() == UUID_TYPE_ID && erased.spec_payload().len() == 16
                ==> (uuid matches Ok(concrete) && concrete.spec_value() == spec_u128_from_le_bytes(
                erased.spec_payload(),
            )),
            erased.spec_type_id() != UUID_TYPE_ID || erased.spec_payload().len() != 16
                ==> uuid == Err::<UuidValue, ReflectError>(ReflectError::TypeMismatch),
    {
        if erased.type_id() != UUID_TYPE_ID {
            return Err(ReflectError::TypeMismatch);
        }
        let payload = erased.payload();
        if payload.len() != 16 {
            return Err(ReflectError::TypeMismatch);
        }
        Ok(UuidValue { value: u128_from_le_bytes(payload.as_slice()) })
    }
}

impl ReflectSerializableWithData for UuidValue {
    open spec fn spec_serialization_data() -> Set<usize> {
        Set::empty()
    }

    /// An atomic value exposes no reflected fields, so its exclusion table
    /// is empty: no position is skipped.
    fn get_serialization_data() -> (data: SerializationData) {
        let data = SerializationData::new(Vec::new().into_iter());
        proof {
            assert(data@ =~= Set::<usize>::empty());
        }
        data
    }
}

impl Reflect for UuidValue {
    fn reflected_type_id(&self) -> (id: u64)
        ensures
            id == UUID_TYPE_ID,
    {
        UUID_TYPE_ID
    }
}

/// The registration entry for the UUID value type: every capability of the
/// closed enumeration is requested, and the companion from-reflect
/// conversion is registered alongside.
pub fn uuid_registration() -> (registration: ValueRegistration)
    ensures
        registration.type_id == UUID_TYPE_ID,
        registration.from_reflect,
        forall|c: Capability| registration.capabilities.contains(c),
{
    let capabilities = CapabilitySet::empty()
        .with(Capability::DebugPrint)
        .with(Capability::PartialEquality)
        .with(Capability::Serialize)
        .with(Capability::Deserialize)
        .with(Capability::DefaultConstruct);
    ValueRegistration { type_id: UUID_TYPE_ID, capabilities, from_reflect: true }
}

/// Registers the UUID value type: purely additive to the registry, keyed by
/// the UUID's type identity, with the full capability set.
pub fn register_uuid_type(registry: &mut TypeRegistry)
    ensures
        final(registry)@.contains_key(UUID_TYPE_ID),
        final(registry)@ == old(registry)@.insert(UUID_TYPE_ID, final(registry)@[UUID_TYPE_ID]),
        final(registry)@[UUID_TYPE_ID].type_id == UUID_TYPE_ID,
        final(registry)@[UUID_TYPE_ID].from_reflect,
        forall|c: Capability| final(registry)@[UUID_TYPE_ID].capabilities.contains(c),
{
    let registration = uuid_registration();
    registry.register(registration);
}

/// Round-trip law of the registered serialization capabilities: serializing
/// a UUID and deserializing the text yields the original value back.
pub fn serialize_roundtrip(uuid: &UuidValue) -> (roundtrip: Option<UuidValue>)
    ensures
        roundtrip == Some(*uuid),
{
    let text = uuid.serialize();
    UuidValue::deserialize(text.as_str())
}

/// Round-trip law of the companion from-reflect conversion: erasing a UUID
/// and downcasting the erased value into its own type succeeds and recovers
/// the original value.
pub fn downcast_roundtrip(uuid: &UuidValue) -> (roundtrip: Result<UuidValue, ReflectError>)
    ensures
        roundtrip == Ok::<UuidValue, ReflectError>(*uuid),
{
    let erased = uuid.to_reflected();
    proof {
        lemma_auto_spec_u128_to_from_le_bytes();
    }
    UuidValue::from_reflected(&erased)
}

} // verus!
