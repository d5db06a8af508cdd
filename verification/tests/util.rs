use mes::util::iter::{LocalIterator, LocalIteratorExt, LocalSliceIterator, Mapped, RefMap, SliceExt};
use mes::util::proxy::{Proxy, ProxyState};
use mes::util::{BasicLGType, LGType};
use std::marker::PhantomData;

fn type_of_family<F: LGType<Type = u8>>(_: &F) -> u8 {
    7
}

#[test]
fn basic_family_is_its_type() {
    let family: BasicLGType<u8> = BasicLGType(PhantomData);
    assert_eq!(type_of_family(&family), 7);
}

#[test]
fn slice_iterator_lends_out_the_elements_in_order() {
    let data = [10u8, 20, 30];
    let mut it = data.local_iter();
    assert_eq!(it.next(), Some(&10));
    assert_eq!(it.slice, &[20, 30]);
    assert_eq!(it.next(), Some(&20));
    assert_eq!(it.next(), Some(&30));
    assert_eq!(it.next(), None);
    assert_eq!(it.next(), None);
    assert!(it.slice.is_empty());
}

#[test]
fn slice_iterator_over_nothing_ends_at_once() {
    let data: [u8; 0] = [];
    let mut it = LocalSliceIterator { slice: &data[..] };
    assert_eq!(it.next(), None);
}

#[test]
fn slice_iterator_copies_keep_their_place() {
    let data = [1u8, 2];
    let mut it = data.local_iter();
    assert_eq!(it.next(), Some(&1));
    let mut copy = it;
    assert_eq!(copy.next(), Some(&2));
    assert_eq!(it.next(), Some(&2));
}

#[test]
fn mapped_iterator_lends_out_what_the_function_makes() {
    let data = [1u32, 2, 3];
    let mut it: Mapped<_, BasicLGType<u32>, _> = Mapped::new(data.local_iter(), |x: &u32| *x * 10);
    assert_eq!(it.value, None);
    assert_eq!(it.next(), Some(&10));
    assert_eq!(it.value, Some(10));
    assert_eq!(it.next(), Some(&20));
    assert_eq!(it.next(), Some(&30));
    assert_eq!(it.next(), None);
    assert_eq!(it.value, Some(30));
}

#[test]
fn map_adapter_is_the_mapped_iterator() {
    let data = [1u32, 2];
    let mut it = data.local_iter().map::<BasicLGType<u64>, _>(|x: &u32| *x as u64 + 1);
    assert_eq!(it.next(), Some(&2));
    assert_eq!(it.next(), Some(&3));
    assert_eq!(it.next(), None);
}

#[test]
fn mapped_iterator_can_be_mapped_again() {
    let data = [1u32, 2];
    let inner = data.local_iter().map::<BasicLGType<u32>, _>(|x: &u32| *x + 1);
    let mut outer = inner.map::<BasicLGType<u32>, _>(|x: &u32| *x * 2);
    assert_eq!(outer.next(), Some(&4));
    assert_eq!(outer.next(), Some(&6));
    assert_eq!(outer.next(), None);
}

#[test]
fn mapped_iterator_clone_goes_on_from_the_same_place() {
    let data = [1u32, 2, 3];
    let mut it: Mapped<_, BasicLGType<u32>, _> = Mapped::new(data.local_iter(), |x: &u32| *x * 10);
    assert_eq!(it.next(), Some(&10));
    let mut copy = it.clone();
    assert_eq!(copy.next(), Some(&20));
    assert_eq!(it.next(), Some(&20));
}

fn first(pair: &(u8, u16)) -> &u8 {
    &pair.0
}

#[test]
fn ref_map_lends_out_the_part_that_is_picked() {
    let data = [(1u8, 100u16), (2, 200)];
    let mut it: RefMap<_, BasicLGType<u8>, _> =
        RefMap { iterator: data.local_iter(), f: first, _phantom: PhantomData };
    assert_eq!(it.next(), Some(&1));
    assert_eq!(it.next(), Some(&2));
    assert_eq!(it.next(), None);
}

#[test]
fn proxy_for_a_borrowed_value_gives_that_value() {
    let value = 5u32;
    let proxy = Proxy::new(&value);
    assert!(std::ptr::eq(proxy.access(), &value));
    assert!(matches!(proxy.state, ProxyState::ProxyRef(_)));
}

#[test]
fn proxy_for_an_accessor_gives_what_it_hands_out() {
    let proxy = Proxy::new_fn(|| 41u32 + 1);
    assert_eq!(*proxy.access(), 42);
    assert!(matches!(proxy.state, ProxyState::ProxyFn(42)));
}

#[test]
fn proxy_map_gives_what_the_function_makes() {
    let value = String::from("abc");
    let proxy = Proxy::new(&value);
    let length = proxy.map(|s: &String| s.len());
    assert_eq!(*length.access(), 3);
    let doubled = length.map(|n: &usize| *n * 2);
    assert_eq!(*doubled.access(), 6);
    assert_eq!(proxy.access(), "abc");
}

#[test]
fn proxy_of_a_copy_type_can_be_copied() {
    let value = 5u32;
    let proxy = Proxy::new(&value);
    let copy = proxy;
    assert_eq!(*proxy.access(), 5);
    assert_eq!(*copy.clone().access(), 5);
}
