use array::{alloc_guard, checked_alloc_size, Array, Buffer, CapacityOverflow, Zeroable};

#[derive(Debug, PartialEq, Eq)]
enum Enum {
    Empty,
    Full,
}

impl Default for Enum {
    fn default() -> Self {
        Enum::Empty
    }
}

#[derive(Debug, Clone, Copy, PartialEq, Eq, Default)]
struct Marker;

#[test]
fn test_set_len() {
    let mut array = Array::<usize>::with_len(2).unwrap();
    array.defaults();

    array.set(0, 1);
    array.set(1, 2);

    assert_eq!(*array.index(0), 1);
    assert_eq!(*array.index(1), 2);
    assert_eq!(array.len(), 2);

    array.set_len(4).unwrap();

    array.set(2, 3);
    array.set(3, 4);

    assert_eq!(*array.index(0), 1);
    assert_eq!(*array.index(1), 2);
    assert_eq!(*array.index(2), 3);
    assert_eq!(*array.index(3), 4);
    assert_eq!(array.len(), 4);

    array.set_len(2).unwrap();

    assert_eq!(*array.index(0), 1);
    assert_eq!(*array.index(1), 2);
    assert_eq!(array.len(), 2);
}

#[test]
fn test_get() {
    let mut array = Array::<usize>::with_len(5).unwrap();
    array.defaults();

    assert_eq!(*array.index(0), 0);
    assert_eq!(*array.index(1), 0);
    assert_eq!(*array.index(2), 0);
    assert_eq!(*array.index(3), 0);
    assert_eq!(*array.index(4), 0);
}

#[test]
fn test_get_mut() {
    let mut array = Array::<usize>::with_len(5).unwrap();
    array.defaults();

    *array.get_mut(0).unwrap() = 1;
    *array.get_mut(1).unwrap() = 2;
    *array.get_mut(2).unwrap() = 3;
    *array.get_mut(3).unwrap() = 4;
    *array.get_mut(4).unwrap() = 5;

    assert_eq!(*array.index(0), 1);
    assert_eq!(*array.index(1), 2);
    assert_eq!(*array.index(2), 3);
    assert_eq!(*array.index(3), 4);
    assert_eq!(*array.index(4), 5);
}

#[test]
fn test_get_clone_mut() {
    let mut a = Array::<usize>::with_len(3).unwrap();
    a.defaults();

    let mut b = a.clone();

    a.set(0, 1);
    a.set(1, 2);
    a.set(2, 3);

    b.set(0, 4);
    b.set(1, 5);
    b.set(2, 6);

    assert_eq!(*a.index(0), 1);
    assert_eq!(*a.index(1), 2);
    assert_eq!(*a.index(2), 3);

    assert_eq!(*b.index(0), 4);
    assert_eq!(*b.index(1), 5);
    assert_eq!(*b.index(2), 6);
}

#[test]
fn test_empty_get() {
    let mut array = Array::<Enum>::with_len(3).unwrap();
    array.defaults();

    assert_eq!(*array.index(0), Enum::Empty);
    assert_eq!(*array.index(1), Enum::Empty);
    assert_eq!(*array.index(2), Enum::Empty);
}

#[test]
fn test_empty_get_mut() {
    let mut array = Array::<Enum>::with_len(5).unwrap();
    array.defaults();

    *array.get_mut(0).unwrap() = Enum::Full;
    *array.get_mut(1).unwrap() = Enum::Full;
    *array.get_mut(2).unwrap() = Enum::Full;

    assert_eq!(*array.index(0), Enum::Full);
    assert_eq!(*array.index(1), Enum::Full);
    assert_eq!(*array.index(2), Enum::Full);
}

#[test]
fn test_iter() {
    let mut array = Array::<usize>::with_len(5).unwrap();
    array.defaults();

    for value in array.as_slice().iter() {
        assert_eq!(*value, Some(0));
    }
}

#[test]
fn test_iter_mut() {
    let mut array = Array::<usize>::with_len(5).unwrap();
    array.defaults();

    for i in 0..array.len() {
        *array.get_mut(i).unwrap() = 1;
    }
    for value in array.as_slice().iter() {
        assert_eq!(*value, Some(1));
    }
}

#[test]
fn allocate_reports_requested_length() {
    for n in [0usize, 1, 2, 7, 100] {
        assert_eq!(Array::<u64>::with_len(n).unwrap().len(), n);
        assert_eq!(Buffer::<u8>::new(n).unwrap().len(), n);
        assert_eq!(Buffer::<Enum>::new(n).unwrap().len(), n);
    }
}

#[test]
fn fresh_slots_are_uninitialised() {
    let a = Array::<u32>::with_len(3).unwrap();
    assert_eq!(a.get(0), None);
    assert_eq!(a.get(2), None);
    assert_eq!(a.as_slice(), &[None, None, None]);
}

#[test]
fn zeroed_allocation_holds_zeros() {
    for n in [0usize, 1, 5, 64] {
        let a = Array::<u32>::with_len_zeroed(n).unwrap();
        assert_eq!(a.len(), n);
        for i in 0..n {
            assert_eq!(*a.index(i), 0);
        }
        let b = Buffer::<u8>::new_zeroed(n).unwrap();
        assert!(b.ptr().iter().all(|s| *s == Some(0)));
    }
}

#[test]
fn zeroed_values_of_each_kind() {
    assert_eq!(u16::zeroed(), 0);
    assert_eq!(i64::zeroed(), 0);
    assert_eq!(usize::zeroed(), 0);
    assert!(!bool::zeroed());
    assert_eq!(char::zeroed(), '\0');
}

#[test]
fn defaulted_allocation_holds_defaults() {
    let b = Buffer::<u64>::new_defaulted(4).unwrap();
    assert_eq!(b.len(), 4);
    for i in 0..4 {
        assert_eq!(*b.index(i), 0);
    }
    let e = Buffer::<Enum>::new_defaulted(2).unwrap();
    assert_eq!(*e.index(0), Enum::Empty);
    assert_eq!(*e.index(1), Enum::Empty);
}

#[test]
fn grow_then_shrink_keeps_prefix() {
    let mut b = Buffer::<u64>::new_defaulted(2).unwrap();
    b.set(0, 1);
    b.set(1, 2);
    b.resize(4).unwrap();
    b.set(2, 3);
    b.set(3, 4);
    b.resize(2).unwrap();
    assert_eq!(*b.index(0), 1);
    assert_eq!(*b.index(1), 2);
    assert_eq!(b.len(), 2);
}

#[test]
fn grow_exposes_uninitialised_slots() {
    let mut b = Buffer::<u64>::new_zeroed(1).unwrap();
    b.set(0, 9);
    b.resize(3).unwrap();
    assert_eq!(b.ptr(), &[Some(9), None, None]);
}

#[test]
fn resize_zeroed_fills_only_new_slots() {
    let mut b = Buffer::<u16>::new(2).unwrap();
    b.set(1, 5);
    b.resize_zeroed(4).unwrap();
    assert_eq!(b.ptr(), &[None, Some(5), Some(0), Some(0)]);
    b.resize_zeroed(1).unwrap();
    assert_eq!(b.ptr(), &[None]);
}

#[test]
fn resize_defaulted_fills_only_new_slots() {
    let mut b = Buffer::<Enum>::new(1).unwrap();
    b.set(0, Enum::Full);
    b.resize_defaulted(3).unwrap();
    assert_eq!(*b.index(0), Enum::Full);
    assert_eq!(*b.index(1), Enum::Empty);
    assert_eq!(*b.index(2), Enum::Empty);
}

#[test]
fn grow_from_empty_is_fresh_allocation() {
    let mut a = Array::<u8>::new();
    assert_eq!(a.len(), 0);
    a.set_len(3).unwrap();
    assert_eq!(a.len(), 3);
    assert_eq!(a.as_slice(), &[None, None, None]);
}

#[test]
fn clone_is_independent() {
    let mut a = Buffer::<u64>::new_defaulted(3).unwrap();
    let b = a.clone();
    a.set(0, 9);
    assert_eq!(*a.index(0), 9);
    assert_eq!(*b.index(0), 0);
    assert_eq!(b.len(), 3);
}

#[test]
fn clone_keeps_uninitialised_slots() {
    let mut a = Array::<u32>::with_len(3).unwrap();
    a.set(1, 7);
    let b = a.clone();
    assert_eq!(b.as_slice(), &[None, Some(7), None]);
}

#[test]
fn zero_sized_elements_are_unbounded() {
    let a = Array::<()>::with_len(5).unwrap();
    assert_eq!(a.len(), usize::MAX);
    assert!(a.as_slice().is_empty());
    let b = Buffer::<Marker>::new(0).unwrap();
    assert_eq!(b.len(), usize::MAX);
    assert_eq!(Array::<Marker>::new().len(), usize::MAX);
}

#[test]
fn zero_sized_elements_index_anywhere() {
    let a = Array::<()>::with_len_zeroed(3).unwrap();
    assert_eq!(*a.index(0), ());
    assert_eq!(*a.index(usize::MAX - 1), ());
    assert_eq!(a.get(1_000_000), Some(&()));
    assert_eq!(a.get(usize::MAX), None);

    let mut b = Buffer::<Marker>::new_defaulted(1).unwrap();
    assert_eq!(*b.index(12345), Marker);
    b.resize(0).unwrap();
    assert_eq!(b.len(), usize::MAX);
    b.set(7, Marker);
    assert_eq!(b.get(8), Some(&Marker));
}

#[test]
fn get_out_of_bounds_is_none() {
    let mut a = Array::<u64>::with_len_zeroed(4).unwrap();
    a.set(3, 1);
    assert_eq!(a.get(3), Some(&1));
    assert_eq!(a.get(4), None);
    assert_eq!(a.get(5), None);
    assert_eq!(a.get(usize::MAX), None);
    let e = Array::<u64>::new();
    assert_eq!(e.get(0), None);
}

#[test]
fn oversized_allocation_is_refused() {
    assert!(matches!(Buffer::<u64>::new(usize::MAX), Err(CapacityOverflow)));
    let too_many = (isize::MAX as usize) / 8 + 1;
    assert!(Array::<u64>::with_len(too_many).is_err());
    assert!(Buffer::<u32>::new_zeroed(usize::MAX / 2).is_err());
    assert!(Buffer::<u16>::new_defaulted(usize::MAX).is_err());
    assert!(Buffer::<()>::new(usize::MAX).is_ok());
}

#[test]
fn oversized_resize_leaves_buffer_unchanged() {
    let mut b = Buffer::<u32>::new_zeroed(2).unwrap();
    b.set(0, 3);
    assert_eq!(b.resize(usize::MAX), Err(CapacityOverflow));
    assert_eq!(b.ptr(), &[Some(3), Some(0)]);
    assert!(b.resize_zeroed(usize::MAX).is_err());
    assert!(b.resize_defaulted(usize::MAX).is_err());
    let mut a = Array::<u64>::with_len(1).unwrap();
    assert!(a.set_len((isize::MAX as usize) / 8 + 1).is_err());
    assert_eq!(a.len(), 1);
}

#[test]
fn alloc_guard_limit() {
    assert!(alloc_guard(0));
    assert!(alloc_guard(isize::MAX as usize));
    assert!(!alloc_guard(isize::MAX as usize + 1));
    assert!(!alloc_guard(usize::MAX));
}

#[test]
fn checked_alloc_size_values() {
    assert_eq!(checked_alloc_size(3, 8), Some(24));
    assert_eq!(checked_alloc_size(0, 8), Some(0));
    assert_eq!(checked_alloc_size(usize::MAX, 0), Some(0));
    assert_eq!(checked_alloc_size(usize::MAX, 2), None);
    assert_eq!(checked_alloc_size(isize::MAX as usize, 1), Some(isize::MAX as usize));
    assert_eq!(checked_alloc_size(isize::MAX as usize / 2 + 1, 2), None);
}

#[test]
fn clear_truncates_to_empty() {
    let mut a = Array::<u8>::with_len_zeroed(6).unwrap();
    a.clear();
    assert_eq!(a.len(), 0);
    assert_eq!(a.get(0), None);
    let mut z = Array::<()>::with_len_zeroed(1).unwrap();
    z.clear();
    assert_eq!(z.len(), usize::MAX);
}

#[test]
fn dealloc_buffer_empties() {
    let mut a = Array::<u32>::with_len_zeroed(4).unwrap();
    a.dealloc_buffer();
    assert_eq!(a.len(), 0);
    let mut b = Buffer::<u32>::new(4).unwrap();
    b.release();
    assert_eq!(b.len(), 0);
}

#[test]
fn box_round_trip() {
    let boxed: Box<[u32]> = vec![5, 6, 7].into_boxed_slice();
    let mut a = Array::from_box(boxed);
    assert_eq!(a.len(), 3);
    assert_eq!(*a.index(2), 7);
    a.set(0, 1);
    let back = a.into_box();
    assert_eq!(&*back, &[1, 6, 7]);

    let b = Buffer::from_box(vec![String::from("x"), String::from("y")].into_boxed_slice());
    assert_eq!(b.get(1).map(|s| s.as_str()), Some("y"));
    let back = b.into_box();
    assert_eq!(back.len(), 2);
    assert_eq!(back[0], "x");
}

#[test]
fn box_of_zero_sized_elements() {
    let a = Array::from_box(vec![Marker, Marker].into_boxed_slice());
    assert_eq!(a.len(), usize::MAX);
    assert_eq!(a.get(99), Some(&Marker));
    let e = Array::<Marker>::from_box(Vec::new().into_boxed_slice());
    assert_eq!(e.get(0), None);
}

#[test]
fn many_buffers_of_varying_length_drop_cleanly() {
    for n in 0usize..50 {
        let mut b = Buffer::<u64>::new_zeroed(n).unwrap();
        b.resize(n * 2).unwrap();
        b.resize(n / 2).unwrap();
        let c = b.clone();
        assert_eq!(c.len(), n / 2);
    }
}

#[test]
fn get_mut_reaches_only_initialised_slots() {
    let mut b = Buffer::<u32>::new(3).unwrap();
    assert!(b.get_mut(0).is_none());
    b.set(0, 4);
    *b.get_mut(0).unwrap() += 1;
    assert_eq!(b.ptr(), &[Some(5), None, None]);
    assert!(b.get_mut(3).is_none());

    let mut z = Buffer::<()>::new_zeroed(0).unwrap();
    assert!(z.get_mut(usize::MAX - 1).is_some());
    assert!(z.get_mut(usize::MAX).is_none());
}
