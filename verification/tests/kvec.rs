use kernux::error::KernelError;
use kernux::mem::allocator::BoundedAllocator;
use kernux::mem::allocator::GlobalAllocator;
use kernux::mem::KVec;

#[test]
fn kvec_new_is_empty() {
    let vec = KVec::<u32, _>::new(GlobalAllocator::new());
    assert_eq!(vec.len(), 0);
}

#[test]
fn kvec_push_and_pop() {
    let mut vec = KVec::new(GlobalAllocator::new());
    vec.push(10).unwrap();
    vec.push(20).unwrap();
    assert_eq!(vec.len(), 2);
    assert_eq!(*vec.get(0), 10);
    assert_eq!(*vec.get(1), 20);

    assert_eq!(vec.pop(), Some(20));
    assert_eq!(vec.len(), 1);

    assert_eq!(vec.pop(), Some(10));
    assert_eq!(vec.len(), 0);

    assert_eq!(vec.pop(), None);
}

#[test]
fn kvec_growth_and_reallocation() {
    let mut vec = KVec::new(GlobalAllocator::new());
    for i in 0..10 {
        vec.push(i).unwrap();
    }
    assert_eq!(vec.len(), 10);
    assert_eq!(*vec.get(0), 0);
    assert_eq!(*vec.get(5), 5);
    assert_eq!(*vec.get(9), 9);
}

#[test]
fn kvec_index_mut() {
    let mut vec = KVec::new(GlobalAllocator::new());
    vec.push(100).unwrap();
    *vec.get_mut(0) += 5;
    assert_eq!(*vec.get(0), 105);
}

#[test]
fn kvec_iter() {
    let mut vec = KVec::new(GlobalAllocator::new());
    vec.push(1).unwrap();
    vec.push(2).unwrap();
    vec.push(3).unwrap();

    let mut sum = 0;
    for item in vec.iter() {
        sum += item;
    }
    assert_eq!(sum, 6);
}

#[test]
fn kvec_iter_mut() {
    let mut vec = KVec::new(GlobalAllocator::new());
    vec.push(1).unwrap();
    vec.push(2).unwrap();
    vec.push(3).unwrap();

    for item in vec.iter_mut() {
        *item += 1;
    }
    assert_eq!(*vec.get(0), 2);
    assert_eq!(*vec.get(1), 3);
    assert_eq!(*vec.get(2), 4);
}

#[test]
fn appending_ten_values_grows_four_eight_sixteen() {
    let mut vec = KVec::new(GlobalAllocator::new());
    assert_eq!(vec.capacity(), 0);
    for i in 0..=9u32 {
        vec.push(i).unwrap();
        let expected_capacity = match vec.len() {
            1..=4 => 4,
            5..=8 => 8,
            _ => 16,
        };
        assert_eq!(vec.capacity(), expected_capacity);
    }
    assert_eq!(vec.len(), 10);
    assert_eq!(*vec.get(0), 0);
    assert_eq!(*vec.get(5), 5);
    assert_eq!(*vec.get(9), 9);
    assert_eq!(vec.capacity(), 16);
}

#[test]
fn removing_after_appends_returns_values_in_reverse() {
    let mut vec = KVec::new(GlobalAllocator::new());
    assert_eq!(vec.pop(), None);
    for i in 0..5u32 {
        vec.push(i).unwrap();
    }
    for i in (2..5u32).rev() {
        assert_eq!(vec.pop(), Some(i));
    }
    assert_eq!(vec.len(), 2);
    assert_eq!(vec.pop(), Some(1));
    assert_eq!(vec.pop(), Some(0));
    assert_eq!(vec.pop(), None);
}

#[test]
fn failed_growth_leaves_the_sequence_unchanged() {
    // 32 bytes: exactly one four-slot block of u64, and nothing more
    let mut vec = KVec::new(BoundedAllocator::new(32));
    for i in 0..4u64 {
        vec.push(i).unwrap();
    }
    assert_eq!(vec.capacity(), 4);

    let r = vec.push(4);
    assert_eq!(r, Err(KernelError::ENOMEM));
    assert_eq!(vec.len(), 4);
    assert_eq!(vec.capacity(), 4);
    for i in 0..4u64 {
        assert_eq!(*vec.get(i as usize), i);
    }
}

#[test]
fn freeing_releases_every_block_once() {
    let mut vec = KVec::new(GlobalAllocator::new());
    for i in 0..10u64 {
        vec.push(i).unwrap();
    }
    let alloc = vec.free();
    // three blocks were allocated (capacities 4, 8, 16); the first two were
    // released during growth and the last one by the destruction
    assert_eq!(alloc.allocation_calls(), 3);
    assert_eq!(alloc.release_calls(), 3);
}

#[test]
fn zero_sized_elements_never_touch_the_allocator() {
    let mut vec = KVec::new(GlobalAllocator::new());
    for _ in 0..100 {
        vec.push(()).unwrap();
    }
    assert_eq!(vec.len(), 100);
    assert_eq!(vec.capacity(), 0);
    assert_eq!(vec.pop(), Some(()));
    let alloc = vec.free();
    assert_eq!(alloc.allocation_calls(), 0);
    assert_eq!(alloc.release_calls(), 0);
}
