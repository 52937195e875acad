use reflect_data::reflect::{ReflectError, ReflectedValue};
use reflect_data::registry::{Capability, TypeRegistry};
use reflect_data::uuid_value::{
    downcast_roundtrip, register_uuid_type, serialize_roundtrip, uuid_registration, UuidValue,
    UUID_TYPE_ID,
};

const SAMPLE: u128 = 0x0123_4567_89ab_cdef_0123_4567_89ab_cdef;

#[test]
fn serialize_is_the_hyphenated_text() {
    assert_eq!(
        UuidValue::new(0).serialize(),
        "00000000-0000-0000-0000-000000000000"
    );
    assert_eq!(
        UuidValue::new(SAMPLE).serialize(),
        "01234567-89ab-cdef-0123-456789abcdef"
    );
    assert_eq!(
        UuidValue::new(1).serialize(),
        "00000000-0000-0000-0000-000000000001"
    );
}

#[test]
fn serialize_matches_the_native_routine() {
    let value: u128 = 0x67e5_5044_10b1_426f_9247_bb68_0e5f_e0c8;
    assert_eq!(
        UuidValue::new(value).serialize(),
        uuid::Uuid::from_u128(value).to_string()
    );
}

#[test]
fn debug_capability_formats_as_the_native_debug() {
    let debug_text = UuidValue::new(SAMPLE).reflect_debug();
    assert_eq!(debug_text, format!("{:?}", uuid::Uuid::from_u128(SAMPLE)));
    assert_eq!(debug_text, "01234567-89ab-cdef-0123-456789abcdef");
}

#[test]
fn deserialize_reads_the_hyphenated_text() {
    let parsed = UuidValue::deserialize("01234567-89ab-cdef-0123-456789abcdef").unwrap();
    assert_eq!(parsed.value(), SAMPLE);
}

#[test]
fn deserialize_rejects_malformed_text() {
    assert!(UuidValue::deserialize("not-a-uuid").is_none());
    assert!(UuidValue::deserialize("").is_none());
    assert!(UuidValue::deserialize("01234567-89ab-cdef-0123-456789abcde").is_none());
}

#[test]
fn serialize_then_deserialize_roundtrips() {
    for value in [0u128, 1, SAMPLE, u128::MAX] {
        let original = UuidValue::new(value);
        let text = original.serialize();
        let back = UuidValue::deserialize(text.as_str()).unwrap();
        assert!(back.reflect_partial_eq(&original));
        assert_eq!(serialize_roundtrip(&original), Some(original));
    }
}

#[test]
fn equality_capability_compares_the_values() {
    let a = UuidValue::new(SAMPLE);
    let b = UuidValue::new(SAMPLE);
    let c = UuidValue::new(7);
    assert!(a.reflect_partial_eq(&b));
    assert!(!a.reflect_partial_eq(&c));
}

#[test]
fn default_capability_is_the_nil_uuid() {
    let nil = UuidValue::default_value();
    assert_eq!(nil.value(), 0);
    assert_eq!(nil.value(), uuid::Uuid::default().as_u128());
}

#[test]
fn downcast_into_own_type_recovers_the_value() {
    let original = UuidValue::new(SAMPLE);
    let erased = original.to_reflected();
    assert_eq!(erased.type_id(), UUID_TYPE_ID);
    let back = UuidValue::from_reflected(&erased).unwrap();
    assert!(back.reflect_partial_eq(&original));
    assert_eq!(downcast_roundtrip(&original), Ok(original));
}

#[test]
fn downcast_into_a_different_type_fails_with_type_mismatch() {
    let other = ReflectedValue::new_opaque(UUID_TYPE_ID + 1, vec![0u8; 16]);
    assert_eq!(
        UuidValue::from_reflected(&other),
        Err(ReflectError::TypeMismatch)
    );
    let malformed = ReflectedValue::new_opaque(UUID_TYPE_ID, vec![0u8; 3]);
    assert_eq!(
        UuidValue::from_reflected(&malformed),
        Err(ReflectError::TypeMismatch)
    );
}

#[test]
fn structural_access_fails_with_not_a_composite() {
    let erased = UuidValue::new(SAMPLE).to_reflected();
    assert_eq!(erased.field(0).unwrap_err(), ReflectError::NotAComposite);
    assert_eq!(erased.field(3).unwrap_err(), ReflectError::NotAComposite);
    assert_eq!(
        erased.variant_name().unwrap_err(),
        ReflectError::NotAComposite
    );
    assert_eq!(erased.element(0).unwrap_err(), ReflectError::NotAComposite);
}

#[test]
fn registration_requests_every_capability() {
    let registration = uuid_registration();
    assert_eq!(registration.type_id, UUID_TYPE_ID);
    assert!(registration.from_reflect);
    for capability in [
        Capability::DebugPrint,
        Capability::PartialEquality,
        Capability::Serialize,
        Capability::Deserialize,
        Capability::DefaultConstruct,
    ] {
        assert!(registration.capabilities.has(capability));
    }
}

#[test]
fn registry_lookup_is_keyed_by_type_identity() {
    let mut registry = TypeRegistry::new();
    assert!(registry.get(UUID_TYPE_ID).is_none());
    register_uuid_type(&mut registry);
    let found = registry.get(UUID_TYPE_ID).unwrap();
    assert_eq!(found.type_id, UUID_TYPE_ID);
    assert!(found.capabilities.has(Capability::Serialize));
    assert!(registry.get(12345).is_none());
}
