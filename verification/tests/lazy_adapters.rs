use tolerant_regex::lazy::{OptionIntoIter, OptionIter};

#[test]
fn present_adapter_yields_elements_in_order() {
    let mut it = OptionIter::some(vec![10u32, 20, 30]);
    assert_eq!(it.remaining(), 3);
    assert_eq!(it.next(), Some(10));
    assert_eq!(it.next(), Some(20));
    assert_eq!(it.next(), Some(30));
    assert_eq!(it.next(), None);
    assert_eq!(it.next(), None);
}

#[test]
fn absent_adapter_is_immediately_exhausted() {
    let mut it: OptionIter<u32> = OptionIter::none();
    assert_eq!(it.remaining(), 0);
    assert_eq!(it.next(), None);
    assert_eq!(it.next(), None);
}

#[test]
fn present_empty_adapter_is_also_exhausted() {
    let mut it: OptionIter<u32> = OptionIter::some(Vec::new());
    assert_eq!(it.remaining(), 0);
    assert_eq!(it.next(), None);
}

#[test]
fn collect_drains_the_adapter() {
    let it = OptionIter::some(vec![1u8, 2, 3]);
    assert_eq!(it.collect(), vec![1u8, 2, 3]);
    let empty: OptionIter<u8> = OptionIter::none();
    assert_eq!(empty.collect(), Vec::<u8>::new());
}

#[test]
fn owning_adapter_transfers_into_iteration() {
    let owned = OptionIntoIter::some(vec![7usize, 8]);
    let mut it = owned.into_iter();
    assert_eq!(it.next(), Some(7));
    assert_eq!(it.next(), Some(8));
    assert_eq!(it.next(), None);
}

#[test]
fn absent_owning_adapter_is_empty() {
    let owned: OptionIntoIter<usize> = OptionIntoIter::none();
    let mut it = owned.into_iter();
    assert_eq!(it.next(), None);
}
