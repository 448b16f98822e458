use packed_lanes::vlist::zip_size_hint;
use packed_lanes::{Cons, Lanes2, Nil, Packable, Packed, PackedGats};

type Pair = Cons<Lanes2<u64>, Cons<Lanes2<u32>, Nil>>;

fn pair() -> Pair {
    Cons(Lanes2([1, 2]), Cons(Lanes2([3, 4]), Nil))
}

#[test]
fn list_has_the_width_of_its_elements() {
    assert_eq!(<Cons<Lanes2<u64>, Nil> as Packed>::WIDTH, 2);
    assert_eq!(<Pair as Packed>::WIDTH, 2);
    assert_eq!(<Cons<Lanes2<u8>, Pair> as Packed>::WIDTH, 2);
}

#[test]
fn list_of_one_wraps_every_operation() {
    let data = [5u64, 6, 7];
    let v = <Cons<Lanes2<u64>, Nil> as Packed>::load_unaligned(Cons(&data[..], Nil));
    assert_eq!(v, Some(Cons(Lanes2([5, 6]), Nil)));
    let v = <Cons<Lanes2<u64>, Nil> as Packed>::load_unaligned_unchecked(Cons(&data[..], Nil));
    assert_eq!(v, Cons(Lanes2([5, 6]), Nil));
    assert_eq!(v.extract(1), Some(Cons(6, Nil)));
    assert_eq!(v.extract(2), None);
    assert_eq!(v.extract_unchecked(0), Cons(5, Nil));
    assert_eq!(v.replace(0, Cons(9, Nil)), Some(Cons(Lanes2([9, 6]), Nil)));
    assert_eq!(v.replace(2, Cons(9, Nil)), None);
    assert_eq!(v.replace_unchecked(1, Cons(9, Nil)), Cons(Lanes2([5, 9]), Nil));
    assert_eq!(v.coalesce(), Cons(5, Nil));
    assert_eq!(<Cons<Lanes2<u64>, Nil> as Packed>::splat(Cons(4, Nil)), Cons(Lanes2([4, 4]), Nil));
    assert_eq!(<Cons<Lanes2<u64>, Nil> as Packed>::default(), Cons(Lanes2([0, 0]), Nil));
    let mut out = [0u64; 3];
    assert!(v.store_unaligned(Cons(&mut out[..], Nil)));
    assert_eq!(out, [5, 6, 0]);
    let mut out = [1u64; 2];
    v.store_unaligned_unchecked(Cons(&mut out[..], Nil));
    assert_eq!(out, [5, 6]);
    let mut short = [1u64; 1];
    assert!(!v.store_unaligned(Cons(&mut short[..], Nil)));
    assert_eq!(short, [1]);
    assert_eq!(<Cons<Lanes2<u64>, Nil> as Packed>::load_unaligned(Cons(&short[..], Nil)), None);
}

#[test]
fn list_load_takes_two_scalars_of_each_slice() {
    let a = [1u64, 2, 9];
    let b = [3u32, 4];
    let v = <Pair as Packed>::load_unaligned(Cons(&a[..], Cons(&b[..], Nil)));
    assert_eq!(v, Some(pair()));
    let v = <Pair as Packed>::load_unaligned_unchecked(Cons(&a[..], Cons(&b[..], Nil)));
    assert_eq!(v, pair());
}

#[test]
fn list_load_reports_a_short_slice_anywhere() {
    let long = [1u64, 2, 9];
    let short = [1u64];
    let b = [3u32, 4];
    let c = [3u32];
    assert_eq!(<Pair as Packed>::load_unaligned(Cons(&short[..], Cons(&b[..], Nil))), None);
    assert_eq!(<Pair as Packed>::load_unaligned(Cons(&long[..], Cons(&c[..], Nil))), None);
    assert_eq!(<Pair as Packed>::load_unaligned(Cons(&short[..], Cons(&c[..], Nil))), None);
}

#[test]
fn list_store_writes_each_element_into_its_slice() {
    let mut a = [0u64, 0, 9];
    let mut b = [0u32, 0];
    assert!(pair().store_unaligned(Cons(&mut a[..], Cons(&mut b[..], Nil))));
    assert_eq!(a, [1, 2, 9]);
    assert_eq!(b, [3, 4]);
    let mut a = [0u64, 0];
    let mut b = [0u32, 0, 7];
    pair().store_unaligned_unchecked(Cons(&mut a[..], Cons(&mut b[..], Nil)));
    assert_eq!(a, [1, 2]);
    assert_eq!(b, [3, 4, 7]);
}

#[test]
fn list_store_reports_a_short_slice_and_still_writes_the_others() {
    let mut a = [0u64, 0, 9];
    let mut b = [8u32];
    assert!(!pair().store_unaligned(Cons(&mut a[..], Cons(&mut b[..], Nil))));
    assert_eq!(a, [1, 2, 9]);
    assert_eq!(b, [8]);
    let mut a = [7u64];
    let mut b = [0u32, 0];
    assert!(!pair().store_unaligned(Cons(&mut a[..], Cons(&mut b[..], Nil))));
    assert_eq!(a, [7]);
    assert_eq!(b, [3, 4]);
}

#[test]
fn list_store_of_load_reproduces_the_scalars() {
    let a = [1.5f64, 2.5, 9.0];
    let b = [-1.0f64, -2.0, 8.0];
    let mut x = [0.0f64; 3];
    let mut y = [0.0f64; 3];
    let v = <Cons<Lanes2<f64>, Cons<Lanes2<f64>, Nil>> as Packed>::load_unaligned(
        Cons(&a[..], Cons(&b[..], Nil)),
    ).unwrap();
    assert!(v.store_unaligned(Cons(&mut x[..], Cons(&mut y[..], Nil))));
    assert_eq!(x, [1.5, 2.5, 0.0]);
    assert_eq!(y, [-1.0, -2.0, 0.0]);
}

#[test]
fn list_extract_gives_the_list_of_the_lanes() {
    let v = pair();
    assert_eq!(v.extract(0), Some(Cons(1, Cons(3, Nil))));
    assert_eq!(v.extract(1), Some(Cons(2, Cons(4, Nil))));
    assert_eq!(v.extract(2), None);
    assert_eq!(v.extract_unchecked(1), Cons(2, Cons(4, Nil)));
    let refs = v.as_packed_ref();
    assert_eq!(<Pair as Packed>::_proxy_extract(refs, 0), Some(Cons(1, Cons(3, Nil))));
    assert_eq!(<Pair as Packed>::_proxy_extract(refs, 2), None);
    assert_eq!(<Pair as Packed>::_proxy_extract_unchecked(refs, 1), Cons(2, Cons(4, Nil)));
}

#[test]
fn list_replace_changes_one_lane_of_each_element() {
    let v = pair();
    let w = v.replace(1, Cons(8, Cons(9, Nil)));
    assert_eq!(w, Some(Cons(Lanes2([1, 8]), Cons(Lanes2([3, 9]), Nil))));
    assert_eq!(v.replace(2, Cons(8, Cons(9, Nil))), None);
    let w = v.replace_unchecked(0, Cons(8, Cons(9, Nil)));
    assert_eq!(w, Cons(Lanes2([8, 2]), Cons(Lanes2([9, 4]), Nil)));
    assert_eq!(w.extract(0), Some(Cons(8, Cons(9, Nil))));
    let s = v.extract(1).unwrap();
    assert_eq!(v.replace(1, s), Some(v));
}

#[test]
fn list_splat_coalesce_and_default() {
    let v = <Pair as Packed>::splat(Cons(7, Cons(5, Nil)));
    assert_eq!(v, Cons(Lanes2([7, 7]), Cons(Lanes2([5, 5]), Nil)));
    assert_eq!(v.extract(1), Some(Cons(7, Cons(5, Nil))));
    assert_eq!(v.coalesce(), Cons(7, Cons(5, Nil)));
    assert_eq!(pair().coalesce(), Cons(1, Cons(3, Nil)));
    assert_eq!(<Pair as Packed>::default(), Cons(Lanes2([0, 0]), Cons(Lanes2([0, 0]), Nil)));
}

#[test]
fn list_scalar_reduce_visits_lane_zero_first() {
    let out = pair().scalar_reduce(Vec::new(), |mut acc: Vec<(u64, u32)>, s| {
        let Cons(a, Cons(b, Nil)) = s;
        acc.push((a, b));
        acc
    });
    assert_eq!(out, vec![(1, 3), (2, 4)]);
}

#[test]
fn list_reference_shapes_are_lists_of_references() {
    let mut v = pair();
    {
        let Cons(a, Cons(b, Nil)) = v.as_packed_ref();
        assert_eq!((a.0, b.0), ([1, 2], [3, 4]));
    }
    {
        let Cons(a, Cons(b, Nil)) = v.as_packed_mut();
        *a = Lanes2([10, 20]);
        *b = Lanes2([30, 40]);
    }
    assert_eq!(v, Cons(Lanes2([10, 20]), Cons(Lanes2([30, 40]), Nil)));
    let mut one = Cons(Lanes2([1u64, 2]), Nil);
    {
        let Cons(a, Nil) = one.as_packed_mut();
        *a = Lanes2([5, 6]);
    }
    let Cons(a, Nil) = one.as_packed_ref();
    assert_eq!(a.0, [5, 6]);
}

#[test]
fn lists_of_three_vectors_work_like_lists_of_two() {
    let v = Cons(Lanes2([1u8, 2]), pair());
    assert_eq!(v.extract(1), Some(Cons(2, Cons(2, Cons(4, Nil)))));
    assert_eq!(v.extract(2), None);
    let mut a = [0u8; 2];
    let mut b = [0u64; 2];
    let mut c = [0u32; 2];
    assert!(v.store_unaligned(Cons(&mut a[..], Cons(&mut b[..], Cons(&mut c[..], Nil)))));
    assert_eq!((a, b, c), ([1, 2], [1, 2], [3, 4]));
}

#[test]
fn lists_of_scalars_know_their_vector() {
    let v: <Cons<u64, Nil> as Packable>::Vector = Cons(Lanes2([1, 2]), Nil);
    assert_eq!(v.extract(0), Some(Cons(1, Nil)));
    let w: <Cons<u64, Cons<i64, Cons<u64, Nil>>> as Packable>::Vector =
        Cons(Lanes2([1, 2]), Cons(Lanes2([-1, -2]), Cons(Lanes2([3, 4]), Nil)));
    assert_eq!(w.extract(1), Some(Cons(2, Cons(-2, Cons(4, Nil)))));
}

#[test]
fn lists_compare_element_by_element() {
    assert_eq!(Cons(1, Cons("a", Nil)), Cons(1, Cons("a", Nil)));
    assert_ne!(Cons(1, Cons("a", Nil)), Cons(1, Cons("b", Nil)));
    assert!(Cons(1, Cons(2, Nil)) < Cons(1, Cons(3, Nil)));
    assert!(Cons(2, Cons(0, Nil)) > Cons(1, Cons(3, Nil)));
    assert_eq!(<Cons<u8, Cons<bool, Nil>> as Default>::default(), Cons(0, Cons(false, Nil)));
    assert_eq!(format!("{:?}", Cons(1, Nil)), "Cons(1, Nil)");
}

#[test]
fn zipping_three_items_with_five_yields_three() {
    let a = vec![1, 2, 3];
    let b = vec!['a', 'b', 'c', 'd', 'e'];
    let mut zipped = Cons(a.into_iter(), b.into_iter());
    assert_eq!(zipped.size_hint(), (3, Some(3)));
    assert_eq!(zipped.size_hint().1, Some(3));
    let mut items = Vec::new();
    while let Some(item) = zipped.next() {
        items.push(item);
    }
    assert_eq!(items, vec![Cons(1, 'a'), Cons(2, 'b'), Cons(3, 'c')]);
    assert_eq!(items.len(), 3);
    assert_eq!(zipped.next(), None);
    let count = Cons(vec![1, 2, 3].into_iter(), vec![1, 2, 3, 4, 5].into_iter()).count();
    assert_eq!(count, 3);
}

#[test]
fn zipping_stops_at_the_shorter_whichever_it_is() {
    let mut zipped = Cons(vec![1, 2, 3, 4, 5].into_iter(), vec!['a', 'b'].into_iter());
    assert_eq!(zipped.size_hint(), (2, Some(2)));
    assert_eq!(zipped.next(), Some(Cons(1, 'a')));
    assert_eq!(zipped.next(), Some(Cons(2, 'b')));
    assert_eq!(zipped.next(), None);
    let mut empty = Cons(Vec::<u8>::new().into_iter(), vec!['a'].into_iter());
    assert_eq!(empty.next(), None);
    assert_eq!(empty.1.next(), Some('a'));
}

#[test]
fn zipping_drops_the_item_of_the_head_where_the_rest_is_at_its_end() {
    let mut zipped = Cons(vec![1, 2, 3].into_iter(), vec!['a'].into_iter());
    assert_eq!(zipped.next(), Some(Cons(1, 'a')));
    assert_eq!(zipped.next(), None);
    assert_eq!(zipped.0.next(), Some(3));
}

#[test]
fn a_list_of_iterators_is_an_iterator() {
    let items: Vec<Cons<u8, char>> = Cons(vec![1u8, 2].into_iter(), "xyz".chars()).collect();
    assert_eq!(items, vec![Cons(1, 'x'), Cons(2, 'y')]);
    let mut seen = Vec::new();
    for Cons(n, Cons(c, flag)) in Cons(0..3, Cons("ab".chars(), std::iter::repeat(true))) {
        seen.push((n, c, flag));
    }
    assert_eq!(seen, vec![(0, 'a', true), (1, 'b', true)]);
    assert_eq!(Cons(0..4, 0..6).len(), 4);
    let mut fused = Cons(0..1, 0..1).fuse();
    assert_eq!(fused.next(), Some(Cons(0, 0)));
    assert_eq!(fused.next(), None);
    assert_eq!(fused.next(), None);
}

#[test]
fn zipping_three_iterators_nests_the_items() {
    let mut zipped = Cons(vec![1, 2].into_iter(), Cons(vec!['a', 'b'].into_iter(), 0..9));
    assert_eq!(zipped.size_hint(), (2, Some(2)));
    assert_eq!(zipped.next(), Some(Cons(1, Cons('a', 0))));
    assert_eq!(zipped.1.next(), Some(Cons('b', 1)));
    assert_eq!(zipped.1.size_hint(), (0, Some(0)));
}

#[test]
fn zipping_from_the_back_takes_the_last_of_each() {
    let mut zipped = Cons(vec![1, 2, 3].into_iter(), vec!['a', 'b'].into_iter());
    assert_eq!(zipped.next_back(), Some(Cons(3, 'b')));
    assert_eq!(zipped.next_back(), Some(Cons(2, 'a')));
    assert_eq!(zipped.next_back(), None);
    assert_eq!(zipped.0.next_back(), None);
    let reversed: Vec<Cons<i32, i32>> = Cons(0..3, 10..13).rev().collect();
    assert_eq!(reversed, vec![Cons(2, 12), Cons(1, 11), Cons(0, 10)]);
}

#[test]
fn size_hint_takes_the_smaller_bounds() {
    assert_eq!(zip_size_hint((3, Some(3)), (5, Some(5))), (3, Some(3)));
    assert_eq!(zip_size_hint((5, Some(9)), (3, Some(4))), (3, Some(4)));
    assert_eq!(zip_size_hint((5, Some(6)), (3, Some(8))), (3, Some(6)));
    assert_eq!(zip_size_hint((2, Some(7)), (4, None)), (2, Some(7)));
    assert_eq!(zip_size_hint((2, None), (4, Some(7))), (2, Some(7)));
    assert_eq!(zip_size_hint((2, None), (4, None)), (2, None));
    assert_eq!(zip_size_hint((0, Some(0)), (usize::MAX, None)), (0, Some(0)));
}

#[test]
fn size_hint_of_an_unbounded_iterator_is_that_of_the_other() {
    let zipped = Cons(std::iter::repeat(1u8), vec![1, 2, 3].into_iter());
    assert_eq!(zipped.size_hint(), (3, Some(3)));
    let zipped = Cons((0..10).filter(|n| n % 2 == 0), std::iter::repeat(1u8));
    assert_eq!(zipped.size_hint(), (0, Some(10)));
    let zipped = Cons(std::iter::repeat(1u8), std::iter::repeat(2u8));
    assert_eq!(zipped.size_hint(), (usize::MAX, None));
}
