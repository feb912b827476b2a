use bounded_types::BoundedVec;

#[test]
fn test() {
    let vec = BoundedVec::from_array([1, 2, 3]);

    assert_eq!(*vec.index(2), 3);

    let vec = vec.push(4);

    assert_eq!(*vec.index(3), 4);
}

#[test]
fn every_index_after_pushes_gives_its_element() {
    let mut vec = BoundedVec::from_array([10u32, 20, 30]);
    for extra in [40u32, 50, 60] {
        vec = vec.push(extra);
    }
    assert_eq!(vec.len(), 6);
    for i in 0..6usize {
        assert_eq!(*vec.index(i), 10 * (i as u32 + 1));
    }
}

#[test]
fn empty_array_gives_empty_vector() {
    let vec: BoundedVec<u8> = BoundedVec::from_array([]);
    assert_eq!(vec.len(), 0);
    let vec = vec.push(7);
    assert_eq!(vec.len(), 1);
    assert_eq!(*vec.index(0), 7);
}

#[test]
fn index_mut_changes_only_that_element() {
    let mut vec = BoundedVec::from_array([1i32, 2, 3]);
    *vec.index_mut(1) = -5;
    assert_eq!(*vec.index(0), 1);
    assert_eq!(*vec.index(1), -5);
    assert_eq!(*vec.index(2), 3);
}
