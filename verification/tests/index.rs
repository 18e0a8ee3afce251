use arena_system::Index;

#[test]
fn new_wraps_the_raw_integer() {
    assert_eq!(Index::new(5).raw(), 5);
    assert_eq!(Index::new(0).raw(), 0);
    assert_eq!(Index::new(-7).raw(), -7);
    assert_eq!(Index::new(i64::MAX).raw(), i64::MAX);
    assert_eq!(Index::new(i64::MIN).raw(), i64::MIN);
}

#[test]
fn invalid_is_minus_one() {
    assert_eq!(Index::invalid().raw(), -1);
    assert_eq!(Index::invalid(), Index::new(-1));
    assert!(Index::invalid().is_invalid());
}

#[test]
fn every_negative_index_is_invalid() {
    assert!(Index::new(-1).is_invalid());
    assert!(Index::new(-2).is_invalid());
    assert!(Index::new(i64::MIN).is_invalid());
    assert!(!Index::new(0).is_invalid());
    assert!(!Index::new(1).is_invalid());
    assert!(!Index::new(i64::MAX).is_invalid());
}

#[test]
fn converts_from_and_to_a_raw_integer() {
    let index: Index = 42i64.into();
    assert_eq!(index, Index::new(42));
    let raw: i64 = index.into();
    assert_eq!(raw, 42);
    let raw: i64 = Index::invalid().into();
    assert_eq!(raw, -1);
    assert_eq!(Index::from(-3i64).raw(), -3);
}

#[test]
fn converts_from_and_to_an_offset() {
    let index = Index::from(7usize);
    assert_eq!(index, Index::new(7));
    assert_eq!(index.offset(), 7usize);
    assert_eq!(Index::from(0usize).offset(), 0usize);
    assert_eq!(index.try_offset(), Some(7usize));
    assert_eq!(Index::new(0).try_offset(), Some(0usize));
}

#[test]
fn an_invalid_index_has_no_offset() {
    assert_eq!(Index::invalid().try_offset(), None);
    assert_eq!(Index::new(-2).try_offset(), None);
    assert_eq!(Index::new(i64::MIN).try_offset(), None);
}

#[test]
fn an_offset_beyond_the_signed_range_is_cut_down() {
    assert_eq!(Index::from(usize::MAX).raw(), usize::MAX as i64);
    assert_eq!(Index::from(i64::MAX as usize).raw(), i64::MAX);
}

#[test]
fn indices_compare_as_their_raw_integers() {
    assert!(Index::new(1) < Index::new(2));
    assert!(Index::new(2) > Index::new(1));
    assert!(Index::new(3) <= Index::new(3));
    assert!(Index::new(3) >= Index::new(3));
    assert!(Index::invalid() < Index::new(0));
    assert!(Index::new(-5) < Index::new(-1));
    assert_eq!(Index::new(4), Index::new(4));
    assert_ne!(Index::new(4), Index::new(5));
    assert_eq!(Index::new(1).partial_cmp(&Index::new(2)), Some(std::cmp::Ordering::Less));
    assert_eq!(Index::new(2).partial_cmp(&Index::new(2)), Some(std::cmp::Ordering::Equal));
    assert_eq!(Index::new(3).partial_cmp(&Index::new(2)), Some(std::cmp::Ordering::Greater));
    assert_eq!(Index::new(1).cmp(&Index::new(2)), std::cmp::Ordering::Less);
    assert_eq!(Index::new(2).cmp(&Index::new(2)), std::cmp::Ordering::Equal);
    assert_eq!(Index::new(3).cmp(&Index::new(2)), std::cmp::Ordering::Greater);
}

#[test]
fn indices_sort_by_their_raw_integers() {
    let mut indices = vec![Index::new(3), Index::invalid(), Index::new(0), Index::new(2)];
    indices.sort();
    assert_eq!(indices, vec![Index::invalid(), Index::new(0), Index::new(2), Index::new(3)]);
    assert_eq!(indices.iter().max(), Some(&Index::new(3)));
}

#[test]
fn an_index_is_copied_freely() {
    let index = Index::new(9);
    let copy = index;
    let clone = index.clone();
    assert_eq!(index, copy);
    assert_eq!(index, clone);
    assert_eq!(format!("{:?}", index), format!("{:?}", copy));
}
