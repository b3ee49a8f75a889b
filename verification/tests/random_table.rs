use art_scenes::common::{CachedRandom, TableError};

#[test]
fn table_of_five_reads_the_same_value_at_two_and_at_seven() {
    let table =
        CachedRandom::from_values(vec![100_000, 200_000, 300_000, 400_000, 500_000]).unwrap();
    assert_eq!(table.get(2), 300_000);
    assert_eq!(table.get(7), 300_000);
}

#[test]
fn table_reads_round_and_round() {
    let values = vec![100_000, 200_000, 300_000, 400_000, 500_000];
    let table = CachedRandom::from_values(values.clone()).unwrap();
    for index in 0..5usize {
        for rounds in 0..4usize {
            assert_eq!(table.get(index + rounds * 5), values[index]);
        }
    }
    assert_eq!(table.get(usize::MAX), values[usize::MAX % 5]);
}

#[test]
fn reading_changes_nothing() {
    let table = CachedRandom::new(17).unwrap();
    let first: Vec<u32> = (0..17).map(|index| table.get(index)).collect();
    let second: Vec<u32> = (0..17).map(|index| table.get(index)).collect();
    assert_eq!(first, second);
}

#[test]
fn new_table_has_the_size_asked_for() {
    assert_eq!(CachedRandom::new(1).unwrap().len(), 1);
    assert_eq!(CachedRandom::new(1031).unwrap().len(), 1031);
}

#[test]
fn new_table_holds_fractions_below_one() {
    let table = CachedRandom::new(2000).unwrap();
    for index in 0..2000 {
        assert!(table.get(index) < 1_000_000);
    }
}

#[test]
fn new_table_is_not_all_the_same() {
    let table = CachedRandom::new(2000).unwrap();
    let first = table.get(0);
    assert!((1..2000).any(|index| table.get(index) != first));
}

#[test]
fn empty_table_is_refused() {
    assert!(matches!(CachedRandom::new(0), Err(TableError::Empty)));
    assert!(matches!(CachedRandom::from_values(Vec::new()), Err(TableError::Empty)));
}

#[test]
fn value_of_one_or_more_is_refused() {
    assert!(matches!(
        CachedRandom::from_values(vec![0, 1_000_000]),
        Err(TableError::OutOfRange)
    ));
    assert!(matches!(CachedRandom::from_values(vec![u32::MAX]), Err(TableError::OutOfRange)));
    assert!(CachedRandom::from_values(vec![999_999]).is_ok());
}

#[test]
fn default_table_has_a_prime_size() {
    let table = CachedRandom::default();
    assert_eq!(table.len(), 1031);
    assert_eq!(table.get(1031), table.get(0));
}
