use bytecode::array::Array;

#[test]
fn test_push_and_index() {
    let mut array = Array::new();
    array.push(10);
    array.push(20);

    assert_eq!(array.count(), 2);
    assert_eq!(*array.index(0), 10);
    assert_eq!(*array.index(1), 20);
}

#[test]
fn test_pop() {
    let mut array = Array::new();
    array.push(10);
    array.push(20);

    assert_eq!(array.pop(), Some(20));
    assert_eq!(array.count(), 1);
    assert_eq!(array.pop(), Some(10));
    assert_eq!(array.count(), 0);
    assert_eq!(array.pop(), None);
}

#[test]
fn test_push_keeps_order() {
    let mut array = Array::new();
    for i in 0..100u32 {
        array.push(3 * i + 1);
    }

    assert_eq!(array.count(), 100);
    for i in 0..100u32 {
        assert_eq!(*array.index(i as usize), 3 * i + 1);
    }
}

#[test]
fn test_pop_reverse_order() {
    let mut array = Array::new();
    for i in 0..100u32 {
        array.push(i);
    }

    for i in (0..100u32).rev() {
        assert_eq!(array.pop(), Some(i));
    }
    assert_eq!(array.pop(), None);
    assert_eq!(array.count(), 0);
}

#[test]
fn test_length_matches_count() {
    let mut array: Array<u8> = Array::new();
    assert_eq!(array.length(), 0);
    array.push(5);
    array.push(6);
    assert_eq!(array.length(), 2);
    assert_eq!(array.count(), 2);
}
