use reflect_data::reflect::FromType;
use reflect_data::type_data::SerializationData;
use reflect_data::uuid_value::UuidValue;

#[test]
fn collects_indices_and_collapses_duplicates() {
    let data = SerializationData::new(vec![2usize, 0, 1, 2].into_iter());
    assert!(data.is_ignored_field(0));
    assert!(data.is_ignored_field(1));
    assert!(data.is_ignored_field(2));
    assert!(!data.is_ignored_field(3));
}

#[test]
fn absent_indices_are_not_ignored() {
    let data = SerializationData::new(vec![1usize, 4].into_iter());
    assert!(!data.is_ignored_field(0));
    assert!(!data.is_ignored_field(2));
    assert!(!data.is_ignored_field(3));
    assert!(!data.is_ignored_field(5));
    assert!(!data.is_ignored_field(1000));
    assert!(!data.is_ignored_field(usize::MAX));
}

#[test]
fn construction_is_order_independent() {
    let data_a = SerializationData::new(vec![2usize, 0, 1].into_iter());
    let data_b = SerializationData::new(vec![0usize, 1, 2].into_iter());
    for index in 0..10usize {
        assert_eq!(data_a.is_ignored_field(index), data_b.is_ignored_field(index));
    }
}

#[test]
fn empty_iterator_ignores_nothing() {
    let data = SerializationData::new(Vec::new().into_iter());
    for index in 0..100usize {
        assert!(!data.is_ignored_field(index));
    }
    assert!(!data.is_ignored_field(usize::MAX));
}

#[test]
fn from_type_invokes_the_provider() {
    let data = <SerializationData as FromType<UuidValue>>::from_type();
    for index in 0..10usize {
        assert!(!data.is_ignored_field(index));
    }
    assert!(!data.is_ignored_field(usize::MAX));
}

#[test]
fn clones_answer_queries_alike() {
    let data = SerializationData::new(vec![2usize, 5].into_iter());
    let duplicate = data.clone();
    for index in 0..10usize {
        assert_eq!(data.is_ignored_field(index), duplicate.is_ignored_field(index));
    }
    assert!(duplicate.is_ignored_field(2));
    assert!(duplicate.is_ignored_field(5));
    assert!(!duplicate.is_ignored_field(0));
}
