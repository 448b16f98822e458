//! What holds of packed vectors, proved from the contracts of the operations.
//!
//! The laws speak of the operations through relations: `replace_gives(v, idx,
//! s, r)` says that `v.replace(idx, s)` may return `r`, and so on. A relation
//! holds of what the operation's contract allows, whatever vector type
//! implements it.

use vstd::prelude::*;
use crate::custom::CustomPacked;
use crate::lanes::Lanes2;
use crate::packed::{
    folds_to, is_lane_count, lanes_of, reduces_to, Packed, PackedGats, TypeLevelUsize,
};
use crate::vlist::{Cons, Nil};

verus! {

/// Whether `V::load_unaligned(data)` may return `loaded`.
pub open spec fn load_gives<'a, V: Packed>(data: V::ScalarSlice<'a>, loaded: Option<V>) -> bool {
    call_ensures(V::load_unaligned, (data,), loaded)
}

/// Whether `v.store_unaligned(data)` may return `stored`, with what it does
/// to `data`.
pub open spec fn store_gives<'a, V: Packed>(
    v: V,
    data: V::ScalarSliceMut<'a>,
    stored: bool,
) -> bool {
    call_ensures(V::store_unaligned, (v, data), stored)
}

/// Whether `v.coalesce()` may return `scalar`.
pub open spec fn coalesce_gives<V: Packed>(v: V, scalar: V::Scalar) -> bool {
    call_ensures(V::coalesce, (v,), scalar)
}

/// Whether `v.extract(idx)` may return `scalar`.
pub open spec fn extract_gives<V: Packed>(v: V, idx: usize, scalar: Option<V::Scalar>) -> bool {
    call_ensures(V::extract, (&v, idx), scalar)
}

/// Whether `v.replace(idx, data)` may return `replaced`.
pub open spec fn replace_gives<V: Packed>(
    v: V,
    idx: usize,
    data: V::Scalar,
    replaced: Option<V>,
) -> bool {
    call_ensures(V::replace, (v, idx, data), replaced)
}

/// Whether `V::splat(data)` may return `v`.
pub open spec fn splat_gives<V: Packed>(data: V::Scalar, v: V) -> bool {
    call_ensures(V::splat, (data,), v)
}

/// A list of vectors has the width of its head and of its rest. There is no
/// list of vectors of two widths: `Cons<V, Rest>` is a vector only where
/// `Rest` has the width of `V`.
pub proof fn lemma_list_width<V: Packed, Rest: Packed<Width = V::Width>>()
    ensures
        <Cons<V, Rest> as Packed>::Width::spec_value() == V::Width::spec_value(),
        <Cons<V, Rest> as Packed>::Width::spec_value() == Rest::Width::spec_value(),
        <Cons<V, Nil> as Packed>::Width::spec_value() == V::Width::spec_value(),
{
}

/// The width of every vector is one of 1, 2, 4, 8, 16 and 32.
pub proof fn lemma_width_is_lane_count<V: Packed>()
    ensures
        is_lane_count(V::Width::spec_value()),
{
    V::Width::value_is_lane_count();
}

/// Storing what was loaded from `src` puts the first two scalars of `src` at
/// the start of `dst` and keeps the rest of `dst`.
pub proof fn lemma_register_store_of_load<T: Copy + Default + 'static>(
    src: &[T],
    loaded: Option<Lanes2<T>>,
    dst: &mut [T],
    stored: bool,
)
    requires
        src@.len() >= 2,
        old(dst)@.len() >= 2,
        load_gives::<Lanes2<T>>(src, loaded),
        loaded matches Some(v) ==> store_gives::<Lanes2<T>>(v, dst, stored),
    ensures
        loaded is Some,
        stored,
        final(dst)@ == src@.take(2) + old(dst)@.skip(2),
{
    let v = loaded.unwrap();
    assert(v.lane(0) == src@[0]);
    assert(v.lane(1) == src@[1]);
    assert(v.0@ =~= src@.take(2));
}

/// The same for a list of two registers: each slice of `dst` gets the first
/// two scalars of the slice of `src` that it stands opposite to.
pub proof fn lemma_register_pair_store_of_load<
    A: Copy + Default + 'static,
    B: Copy + Default + 'static,
>(
    src: Cons<&[A], Cons<&[B], Nil>>,
    loaded: Option<Cons<Lanes2<A>, Cons<Lanes2<B>, Nil>>>,
    dst: Cons<&mut [A], Cons<&mut [B], Nil>>,
    stored: bool,
)
    requires
        src.0@.len() >= 2,
        src.1.0@.len() >= 2,
        dst.0@.len() >= 2,
        dst.1.0@.len() >= 2,
        load_gives::<Cons<Lanes2<A>, Cons<Lanes2<B>, Nil>>>(src, loaded),
        loaded matches Some(v) ==> store_gives::<Cons<Lanes2<A>, Cons<Lanes2<B>, Nil>>>(
            v,
            dst,
            stored,
        ),
    ensures
        loaded is Some,
        stored,
        final(dst.0)@ == src.0@.take(2) + old(dst.0)@.skip(2),
        final(dst.1.0)@ == src.1.0@.take(2) + old(dst.1.0)@.skip(2),
{
    let v = loaded.unwrap();
    assert(v.lane(0) == Cons(src.0@[0], Cons(src.1.0@[0], Nil)));
    assert(v.lane(1) == Cons(src.0@[1], Cons(src.1.0@[1], Nil)));
    assert(v.0.0@ =~= src.0@.take(2));
    assert(v.1.0.0@ =~= src.1.0@.take(2));
}

/// Storing a list is storing its head into the head of the slices and its
/// rest into the rest of them, and succeeds where both do.
pub proof fn lemma_store_of_list<'a, V: Packed, Rest: Packed<Width = V::Width>>(
    v: Cons<V, Rest>,
    data: Cons<V::ScalarSliceMut<'a>, Rest::ScalarSliceMut<'a>>,
    stored: bool,
)
    requires
        store_gives::<Cons<V, Rest>>(v, data, stored),
    ensures
        exists|head: bool, rest: bool|
            stored == (head && rest) && #[trigger] store_gives::<V>(v.0, data.0, head)
                && #[trigger] store_gives::<Rest>(v.1, data.1, rest),
{
    let head = V::slice_len(V::slice_mut_value(data.0)) >= V::Width::spec_value();
    let rest = Rest::slice_len(Rest::slice_mut_value(data.1)) >= V::Width::spec_value();
    assert(store_gives::<V>(v.0, data.0, head) && store_gives::<Rest>(v.1, data.1, rest));
}

/// Storing a list of one vector is storing that vector into the one slice.
pub proof fn lemma_store_of_single<'a, V: Packed>(
    v: Cons<V, Nil>,
    data: Cons<V::ScalarSliceMut<'a>, Nil>,
    stored: bool,
)
    requires
        store_gives::<Cons<V, Nil>>(v, data, stored),
    ensures
        store_gives::<V>(v.0, data.0, stored),
{
}

/// Storing a custom vector is storing its base form.
pub proof fn lemma_store_of_custom<'a, T: CustomPacked>(
    v: T,
    data: <T::BaseVector as PackedGats>::ScalarSliceMut<'a>,
    stored: bool,
)
    requires
        store_gives::<T>(v, data, stored),
    ensures
        store_gives::<T::BaseVector>(T::spec_vector_into_base(v), data, stored),
{
}

/// Extracting the lane that was just replaced gives the scalar that was put
/// there.
pub proof fn lemma_extract_of_replace<V: Packed>(
    v: V,
    idx: usize,
    scalar: V::Scalar,
    replaced: Option<V>,
    extracted: Option<V::Scalar>,
)
    requires
        idx < V::Width::spec_value(),
        replace_gives(v, idx, scalar, replaced),
        replaced matches Some(w) ==> extract_gives(w, idx, extracted),
    ensures
        replaced is Some,
        extracted == Some(scalar),
{
}

/// Replacing a lane by what it holds changes no lane.
pub proof fn lemma_replace_of_extract<V: Packed>(
    v: V,
    idx: usize,
    extracted: Option<V::Scalar>,
    replaced: Option<V>,
)
    requires
        idx < V::Width::spec_value(),
        extract_gives(v, idx, extracted),
        extracted matches Some(scalar) ==> replace_gives(v, idx, scalar, replaced),
    ensures
        extracted is Some,
        replaced matches Some(w) && forall|i: int|
            0 <= i < V::Width::spec_value() ==> #[trigger] w.lane(i) == v.lane(i),
{
}

/// Every lane of a splat holds the scalar that was splatted.
pub proof fn lemma_extract_of_splat<V: Packed>(
    scalar: V::Scalar,
    v: V,
    idx: usize,
    extracted: Option<V::Scalar>,
)
    requires
        idx < V::Width::spec_value(),
        splat_gives(scalar, v),
        extract_gives(v, idx, extracted),
    ensures
        extracted == Some(scalar),
{
}

/// A vector whose lanes all hold `scalar` coalesces to `scalar`.
pub proof fn lemma_coalesce_of_equal_lanes<V: Packed>(v: V, scalar: V::Scalar, coalesced: V::Scalar)
    requires
        forall|i: int| 0 <= i < V::Width::spec_value() ==> #[trigger] v.lane(i) == scalar,
        coalesce_gives(v, coalesced),
    ensures
        coalesced == scalar,
{
    lemma_width_is_lane_count::<V>();
    assert(v.lane(0) == scalar);
}

/// A splat coalesces to the scalar that was splatted.
pub proof fn lemma_coalesce_of_splat<V: Packed>(scalar: V::Scalar, v: V, coalesced: V::Scalar)
    requires
        splat_gives(scalar, v),
        coalesce_gives(v, coalesced),
    ensures
        coalesced == scalar,
{
    lemma_coalesce_of_equal_lanes(v, scalar, coalesced);
}

/// A fold takes the scalars in their order: where every step acts on a view
/// of the accumulator as `g` does, the view of the outcome is the left fold of
/// `g` over the scalars.
pub proof fn lemma_fold_in_order<S, T, A>(
    lanes: Seq<S>,
    step: spec_fn(T, S, T) -> bool,
    view: spec_fn(T) -> A,
    g: spec_fn(A, S) -> A,
    init: T,
    n: nat,
    out: T,
)
    requires
        n <= lanes.len(),
        forall|a: T, s: S, r: T| #[trigger] step(a, s, r) ==> view(r) == g(view(a), s),
        folds_to(lanes, step, init, n, out),
    ensures
        view(out) == lanes.take(n as int).fold_left(view(init), g),
    decreases n,
{
    if n > 0 {
        let mid = choose|mid: T|
            folds_to(lanes, step, init, (n - 1) as nat, mid) && #[trigger] step(
                mid,
                lanes[n - 1],
                out,
            );
        lemma_fold_in_order(lanes, step, view, g, init, (n - 1) as nat, mid);
        assert(lanes.take(n as int).drop_last() =~= lanes.take(n - 1));
    }
}

/// `scalar_reduce` visits the lanes in the order of their indices, lane 0
/// first: where every call of `func` acts on a view of the accumulator as `g`
/// does, the view of the result is the left fold of `g` over the lanes.
pub proof fn lemma_reduce_in_lane_order<V: Packed, T, F: FnMut(T, V::Scalar) -> T, A>(
    v: V,
    func: F,
    view: spec_fn(T) -> A,
    g: spec_fn(A, V::Scalar) -> A,
    init: T,
    out: T,
)
    requires
        forall|a: T, s: V::Scalar, r: T| #[trigger]
            call_ensures(func, (a, s), r) ==> view(r) == g(view(a), s),
        reduces_to(lanes_of(v), func, init, V::Width::spec_value(), out),
    ensures
        view(out) == lanes_of(v).fold_left(view(init), g),
{
    let lanes = lanes_of(v);
    let step = |a: T, s: V::Scalar, r: T| call_ensures(func, (a, s), r);
    lemma_fold_in_order(lanes, step, view, g, init, V::Width::spec_value(), out);
    assert(lanes.take(V::Width::spec_value() as int) =~= lanes);
}

/// Folding `push` over scalars appends them in their order.
proof fn lemma_fold_of_push<S>(lanes: Seq<S>, init: Seq<S>)
    ensures
        lanes.fold_left(init, |a: Seq<S>, s: S| a.push(s)) == init + lanes,
    decreases lanes.len(),
{
    if lanes.len() > 0 {
        lemma_fold_of_push(lanes.drop_last(), init);
        assert((init + lanes.drop_last()).push(lanes.last()) =~= init + lanes);
    } else {
        assert(init =~= init + lanes);
    }
}

/// Collecting by `scalar_reduce` gives the lanes in the order of their
/// indices: where every call of `func` appends the scalar to what `view`
/// shows of the accumulator, the result shows the lanes, lane 0 first, after
/// what the accumulator showed at the start.
pub proof fn lemma_reduce_by_append<V: Packed, T, F: FnMut(T, V::Scalar) -> T>(
    v: V,
    func: F,
    view: spec_fn(T) -> Seq<V::Scalar>,
    init: T,
    out: T,
)
    requires
        forall|a: T, s: V::Scalar, r: T| #[trigger]
            call_ensures(func, (a, s), r) ==> view(r) == view(a).push(s),
        reduces_to(lanes_of(v), func, init, V::Width::spec_value(), out),
    ensures
        view(out) == view(init) + lanes_of(v),
{
    let g = |a: Seq<V::Scalar>, s: V::Scalar| a.push(s);
    lemma_reduce_in_lane_order(v, func, view, g, init, out);
    lemma_fold_of_push(lanes_of(v), view(init));
}

/// The conversions of a custom vector undo each other: a vector that goes
/// into its base form and back is as it was, and so is a scalar.
pub proof fn lemma_custom_round_trip<T: CustomPacked>(
    vector: T,
    base_vector: T::BaseVector,
    vector_back: T,
    scalar: T::CustomScalar,
    base_scalar: T::BaseScalar,
    scalar_back: T::CustomScalar,
)
    requires
        call_ensures(T::vector_into_base, (vector,), base_vector),
        call_ensures(T::vector_from_base, (base_vector,), vector_back),
        call_ensures(T::scalar_into_base, (scalar,), base_scalar),
        call_ensures(T::scalar_from_base, (base_scalar,), scalar_back),
    ensures
        vector_back == vector,
        scalar_back == scalar,
{
    T::vector_round_trip(vector);
    T::scalar_round_trip(scalar);
}

/// The base form of a custom splat holds the base form of the scalar in
/// every lane.
pub proof fn lemma_custom_splat_in_base<T: CustomPacked>(scalar: T::CustomScalar, v: T)
    requires
        splat_gives::<T>(scalar, v),
    ensures
        forall|i: int|
            0 <= i < <T as Packed>::Width::spec_value() ==> #[trigger] T::spec_vector_into_base(
                v,
            ).lane(i)
                == T::spec_scalar_into_base(scalar),
{
    assert forall|i: int| 0 <= i < <T as Packed>::Width::spec_value() implies #[trigger]
        T::spec_vector_into_base(v).lane(i) == T::spec_scalar_into_base(scalar) by {
        assert(v.lane(i) == scalar);
        T::base_scalar_round_trip(T::spec_vector_into_base(v).lane(i));
    }
}

/// There is no lane at index `WIDTH`: `extract` and `replace` report it.
pub proof fn lemma_no_lane_at_width<V: Packed>(
    v: V,
    idx: usize,
    scalar: V::Scalar,
    extracted: Option<V::Scalar>,
    replaced: Option<V>,
)
    requires
        idx == V::Width::spec_value(),
        extract_gives(v, idx, extracted),
        replace_gives(v, idx, scalar, replaced),
    ensures
        extracted is None,
        replaced is None,
{
}

} // verus!
