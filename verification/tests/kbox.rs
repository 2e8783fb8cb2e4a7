use kernux::error::KernelError;
use kernux::mem::allocator::BoundedAllocator;
use kernux::mem::allocator::GlobalAllocator;
use kernux::mem::KBox;

struct DropTest(i32);

impl Drop for DropTest {
    fn drop(&mut self) {}
}

#[test]
fn kbox_new_and_deref() {
    let val = 42;
    let kbox = KBox::new(val, GlobalAllocator::new()).unwrap();
    assert_eq!(*kbox.as_ref(), 42);
}

#[test]
fn kbox_deref_mut() {
    let mut kbox = KBox::new(100, GlobalAllocator::new()).unwrap();
    *kbox.as_mut() += 1;
    assert_eq!(*kbox.as_ref(), 101);
}

#[test]
fn kbox_drop() {
    let dt = DropTest(1);
    let kbox = KBox::new(dt, GlobalAllocator::new()).unwrap();
    let _ = kbox.free();
}

#[test]
fn kbox_new_zeroed() {
    let a = KBox::<u32, _>::new_zeroed(GlobalAllocator::new()).unwrap();
    let b = KBox::<u64, _>::new_zeroed(GlobalAllocator::new()).unwrap();
    assert_eq!(*a.as_ref(), 0);
    assert_eq!(*b.as_ref(), 0);
}

#[test]
fn handle_release_happens_exactly_once() {
    let mut kbox = KBox::new(42u64, GlobalAllocator::new()).unwrap();
    *kbox.as_mut() += 1;
    assert_eq!(*kbox.as_ref(), 43);
    let alloc = kbox.free();
    assert_eq!(alloc.allocation_calls(), 1);
    assert_eq!(alloc.release_calls(), 1);
}

#[test]
fn zero_sized_handle_never_touches_the_allocator() {
    let kbox = KBox::new((), GlobalAllocator::new()).unwrap();
    assert_eq!(*kbox.as_ref(), ());
    let alloc = kbox.free();
    assert_eq!(alloc.allocation_calls(), 0);
    assert_eq!(alloc.release_calls(), 0);
}

#[test]
fn zero_sized_handle_succeeds_with_no_budget() {
    // even a capability that can grant nothing is never asked
    let kbox = KBox::new((), BoundedAllocator::new(0)).unwrap();
    let alloc = kbox.free();
    assert_eq!(alloc.allocation_calls(), 0);
    assert_eq!(alloc.remaining_budget(), 0);
}

#[test]
fn handle_creation_fails_only_with_out_of_memory() {
    let r = KBox::new(7u64, BoundedAllocator::new(4));
    match r {
        Ok(_) => panic!("a 4-byte budget cannot hold a u64"),
        Err(e) => assert_eq!(e, KernelError::ENOMEM),
    }
}
