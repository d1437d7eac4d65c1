use build_script::utils::VecExt;

#[test]
fn test_take() {
    let mut vec = vec![1, 2, 3, 4, 5];
    let first = vec.take(0);
    assert_eq!(first, Some(1));
    let none = vec.take(999);
    assert!(none.is_none())
}

#[test]
fn test_take_first() {
    let mut vec = vec![1, 2, 3, 4, 5];
    let first = vec.take_first();
    assert_eq!(first, Some(1));
    vec.clear();
    let none = vec.take_first();
    assert!(none.is_none())
}

#[test]
fn take_keeps_the_rest_in_order() {
    let mut vec = vec![1, 2, 3, 4, 5];
    assert_eq!(vec.take(2), Some(3));
    assert_eq!(vec, vec![1, 2, 4, 5]);
    assert_eq!(vec.take(4), None);
    assert_eq!(vec, vec![1, 2, 4, 5]);
}
