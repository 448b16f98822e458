//! Lists of vectors as vectors.
//!
//! A list of vectors that share one width is a vector of that width. Lane
//! `i` of the list is the list of the elements' lanes `i`, and every operation
//! is the elements' operation, element by element. The list of one vector is
//! where this starts: the empty list has no width.

use vstd::prelude::*;
use crate::packed::{Packable, Packed, PackedGats, TypeLevelUsize};
use crate::vlist::{shorter, Cons, Nil};

verus! {

impl<V> PackedGats for Cons<V, Nil> where V: PackedGats {
    type Ref<'a> = Cons<V::Ref<'a>, Nil>;

    type RefMut<'a> = Cons<V::RefMut<'a>, Nil>;

    type ScalarSlice<'a> = Cons<V::ScalarSlice<'a>, Nil>;

    type ScalarSliceMut<'a> = Cons<V::ScalarSliceMut<'a>, Nil>;

    open spec fn ref_value<'a>(refs: Self::Ref<'a>) -> Self {
        Cons(V::ref_value(refs.0), Nil)
    }

    open spec fn ref_mut_value<'a>(refs: Self::RefMut<'a>) -> Self {
        Cons(V::ref_mut_value(refs.0), Nil)
    }

    open spec fn slice_mut_value<'a>(data: Self::ScalarSliceMut<'a>) -> Self::ScalarSlice<'a> {
        Cons(V::slice_mut_value(data.0), Nil)
    }

    fn as_packed_ref<'a>(&'a self) -> (refs: Self::Ref<'a>) {
        let Cons(v, _) = self;
        let refs = Cons(v.as_packed_ref(), Nil);
        assert(Self::ref_value(refs).1 == self.1);
        refs
    }

    /// The result holds the reference shape of a mutable borrow of the
    /// element: what is written through it is written to the element.
    fn as_packed_mut<'a>(&'a mut self) -> (refs: Self::RefMut<'a>)
        ensures
            exists|head: &mut V|
                *head == old(self).0 && *final(head) == final(self).0 && #[trigger] call_ensures(
                    V::as_packed_mut,
                    (head,),
                    refs.0,
                ),
    {
        let Cons(v, _) = self;
        let head = v.as_packed_mut();
        // The borrow of the element that the call was made with.
        assert(exists|r: &mut V|
            *r == old(self).0 && #[trigger] call_ensures(V::as_packed_mut, (r,), head));
        assert(Self::ref_mut_value(Cons(head, Nil)).1 == old(self).1);
        Cons(head, Nil)
    }
}

impl<V, Rest> PackedGats for Cons<V, Rest> where V: PackedGats, Rest: PackedGats {
    type Ref<'a> = Cons<V::Ref<'a>, Rest::Ref<'a>>;

    type RefMut<'a> = Cons<V::RefMut<'a>, Rest::RefMut<'a>>;

    type ScalarSlice<'a> = Cons<V::ScalarSlice<'a>, Rest::ScalarSlice<'a>>;

    type ScalarSliceMut<'a> = Cons<V::ScalarSliceMut<'a>, Rest::ScalarSliceMut<'a>>;

    open spec fn ref_value<'a>(refs: Self::Ref<'a>) -> Self {
        Cons(V::ref_value(refs.0), Rest::ref_value(refs.1))
    }

    open spec fn ref_mut_value<'a>(refs: Self::RefMut<'a>) -> Self {
        Cons(V::ref_mut_value(refs.0), Rest::ref_mut_value(refs.1))
    }

    open spec fn slice_mut_value<'a>(data: Self::ScalarSliceMut<'a>) -> Self::ScalarSlice<'a> {
        Cons(V::slice_mut_value(data.0), Rest::slice_mut_value(data.1))
    }

    fn as_packed_ref<'a>(&'a self) -> (refs: Self::Ref<'a>) {
        let Cons(v, rest) = self;
        Cons(v.as_packed_ref(), rest.as_packed_ref())
    }

    /// The result holds the reference shapes of mutable borrows of the head
    /// and of the rest: what is written through either is written to that
    /// part of the list.
    fn as_packed_mut<'a>(&'a mut self) -> (refs: Self::RefMut<'a>)
        ensures
            exists|head: &mut V|
                *head == old(self).0 && *final(head) == final(self).0 && #[trigger] call_ensures(
                    V::as_packed_mut,
                    (head,),
                    refs.0,
                ),
            exists|rest: &mut Rest|
                *rest == old(self).1 && *final(rest) == final(self).1 && #[trigger] call_ensures(
                    Rest::as_packed_mut,
                    (rest,),
                    refs.1,
                ),
    {
        let Cons(v, rest) = self;
        let head = v.as_packed_mut();
        // The borrows of the two parts that the calls were made with.
        assert(exists|r: &mut V|
            *r == old(self).0 && #[trigger] call_ensures(V::as_packed_mut, (r,), head));
        let rest = rest.as_packed_mut();
        assert(exists|r: &mut Rest|
            *r == old(self).1 && #[trigger] call_ensures(Rest::as_packed_mut, (r,), rest));
        Cons(head, rest)
    }
}

/// The list of one vector `[V]`: the vector itself, wrapped.
impl<V> Packed for Cons<V, Nil> where V: Packed {
    type Scalar = Cons<V::Scalar, Nil>;

    type Width = V::Width;

    open spec fn lane(&self, idx: int) -> Self::Scalar {
        Cons(self.0.lane(idx), Nil)
    }

    open spec fn slice_len<'a>(data: Self::ScalarSlice<'a>) -> nat {
        V::slice_len(data.0)
    }

    open spec fn slice_lane<'a>(data: Self::ScalarSlice<'a>, idx: int) -> Self::Scalar {
        Cons(V::slice_lane(data.0, idx), Nil)
    }

    open spec fn is_default_scalar(scalar: Self::Scalar) -> bool {
        V::is_default_scalar(scalar.0)
    }

    fn load_unaligned<'a>(data: Self::ScalarSlice<'a>) -> (loaded: Option<Self>) {
        let Cons(data, _) = data;
        let v = V::load_unaligned(data)?;
        Some(Cons(v, Nil))
    }

    fn load_unaligned_unchecked<'a>(data: Self::ScalarSlice<'a>) -> (v: Self) {
        let Cons(data, _) = data;
        Cons(V::load_unaligned_unchecked(data), Nil)
    }

    /// The element is stored into the one slice of `data`, as its own
    /// `store_unaligned` states.
    fn store_unaligned<'a>(self, data: Self::ScalarSliceMut<'a>) -> (stored: bool)
        ensures
            call_ensures(V::store_unaligned, (self.0, data.0), stored),
    {
        let Cons(v, _) = self;
        let Cons(data, _) = data;
        v.store_unaligned(data)
    }

    /// The element is stored into the one slice of `data`, as its own
    /// `store_unaligned_unchecked` states.
    fn store_unaligned_unchecked<'a>(self, data: Self::ScalarSliceMut<'a>)
        ensures
            call_ensures(V::store_unaligned_unchecked, (self.0, data.0), ()),
    {
        let Cons(v, _) = self;
        let Cons(data, _) = data;
        v.store_unaligned_unchecked(data);
    }

    fn coalesce(self) -> (scalar: Self::Scalar) {
        let Cons(v, _) = self;
        Cons(v.coalesce(), Nil)
    }

    fn _proxy_extract<'a>(refs: Self::Ref<'a>, idx: usize) -> (scalar: Option<
        Self::Scalar,
    >) {
        let Cons(v, _) = refs;
        let scalar = V::_proxy_extract(v, idx)?;
        Some(Cons(scalar, Nil))
    }

    fn _proxy_extract_unchecked<'a>(refs: Self::Ref<'a>, idx: usize) -> (scalar:
        Self::Scalar) {
        let Cons(v, _) = refs;
        Cons(V::_proxy_extract_unchecked(v, idx), Nil)
    }

    fn replace(self, idx: usize, data: Self::Scalar) -> (replaced: Option<Self>) {
        let Cons(v, _) = self;
        let Cons(head, nil) = data;
        assert(nil == Nil);
        let v = v.replace(idx, head)?;
        Some(Cons(v, Nil))
    }

    fn replace_unchecked(self, idx: usize, data: Self::Scalar) -> (v: Self) {
        let Cons(v, _) = self;
        let Cons(head, nil) = data;
        assert(nil == Nil);
        Cons(v.replace_unchecked(idx, head), Nil)
    }

    fn splat(data: Self::Scalar) -> (v: Self) {
        let Cons(head, nil) = data;
        assert(nil == Nil);
        Cons(V::splat(head), Nil)
    }

    fn default() -> (v: Self) {
        Cons(<V as Packed>::default(), Nil)
    }
}

/// The list `[V, ...Rest]`, where the rest has the width of `V`.
impl<V, Rest> Packed for Cons<V, Rest> where V: Packed, Rest: Packed<Width = V::Width> {
    type Scalar = Cons<V::Scalar, Rest::Scalar>;

    type Width = V::Width;

    open spec fn lane(&self, idx: int) -> Self::Scalar {
        Cons(self.0.lane(idx), self.1.lane(idx))
    }

    open spec fn slice_len<'a>(data: Self::ScalarSlice<'a>) -> nat {
        shorter(V::slice_len(data.0), Rest::slice_len(data.1))
    }

    open spec fn slice_lane<'a>(data: Self::ScalarSlice<'a>, idx: int) -> Self::Scalar {
        Cons(V::slice_lane(data.0, idx), Rest::slice_lane(data.1, idx))
    }

    open spec fn is_default_scalar(scalar: Self::Scalar) -> bool {
        V::is_default_scalar(scalar.0) && Rest::is_default_scalar(scalar.1)
    }

    fn load_unaligned<'a>(data: Self::ScalarSlice<'a>) -> (loaded: Option<Self>) {
        let Cons(v, rest) = data;
        let v = V::load_unaligned(v)?;
        let rest = Rest::load_unaligned(rest)?;
        Some(Cons(v, rest))
    }

    fn load_unaligned_unchecked<'a>(data: Self::ScalarSlice<'a>) -> (v: Self) {
        let Cons(v, rest) = data;
        Cons(V::load_unaligned_unchecked(v), Rest::load_unaligned_unchecked(rest))
    }

    /// The head is stored into the head of `data` and the rest into the rest
    /// of `data`, each as its own `store_unaligned` states: a part that is
    /// long enough is written also where the other is too short.
    fn store_unaligned<'a>(self, data: Self::ScalarSliceMut<'a>) -> (stored: bool)
        ensures
            call_ensures(
                V::store_unaligned,
                (self.0, data.0),
                V::slice_len(V::slice_mut_value(data.0)) >= V::Width::spec_value(),
            ),
            call_ensures(
                Rest::store_unaligned,
                (self.1, data.1),
                Rest::slice_len(Rest::slice_mut_value(data.1)) >= V::Width::spec_value(),
            ),
    {
        let Cons(v, rest) = self;
        let Cons(data_v, data_rest) = data;
        let stored_v = v.store_unaligned(data_v);
        let stored_rest = rest.store_unaligned(data_rest);
        stored_v && stored_rest
    }

    /// The head is stored into the head of `data` and the rest into the rest
    /// of `data`, each as its own `store_unaligned_unchecked` states.
    fn store_unaligned_unchecked<'a>(self, data: Self::ScalarSliceMut<'a>)
        ensures
            call_ensures(V::store_unaligned_unchecked, (self.0, data.0), ()),
            call_ensures(Rest::store_unaligned_unchecked, (self.1, data.1), ()),
    {
        let Cons(v, rest) = self;
        let Cons(data_v, data_rest) = data;
        v.store_unaligned_unchecked(data_v);
        rest.store_unaligned_unchecked(data_rest);
    }

    fn coalesce(self) -> (scalar: Self::Scalar) {
        let Cons(v, rest) = self;
        Cons(v.coalesce(), rest.coalesce())
    }

    fn _proxy_extract<'a>(refs: Self::Ref<'a>, idx: usize) -> (scalar: Option<
        Self::Scalar,
    >) {
        let Cons(v, rest) = refs;
        let v = V::_proxy_extract(v, idx)?;
        let rest = Rest::_proxy_extract(rest, idx)?;
        Some(Cons(v, rest))
    }

    fn _proxy_extract_unchecked<'a>(refs: Self::Ref<'a>, idx: usize) -> (scalar:
        Self::Scalar) {
        let Cons(v, rest) = refs;
        Cons(V::_proxy_extract_unchecked(v, idx), Rest::_proxy_extract_unchecked(rest, idx))
    }

    fn replace(self, idx: usize, data: Self::Scalar) -> (replaced: Option<Self>) {
        let Cons(v, rest) = self;
        let Cons(v_data, rest_data) = data;
        let v = v.replace(idx, v_data)?;
        let rest = rest.replace(idx, rest_data)?;
        Some(Cons(v, rest))
    }

    fn replace_unchecked(self, idx: usize, data: Self::Scalar) -> (v: Self) {
        let Cons(v, rest) = self;
        let Cons(v_data, rest_data) = data;
        Cons(v.replace_unchecked(idx, v_data), rest.replace_unchecked(idx, rest_data))
    }

    fn splat(data: Self::Scalar) -> (v: Self) {
        let Cons(v, rest) = data;
        Cons(V::splat(v), Rest::splat(rest))
    }

    fn default() -> (v: Self) {
        Cons(<V as Packed>::default(), <Rest as Packed>::default())
    }
}

/// A list of one scalar goes into the list of one vector.
impl<X> Packable for Cons<X, Nil> where X: Packable {
    type Vector = Cons<X::Vector, Nil>;
}

/// A longer list of scalars goes into the list of their vectors, where these
/// share one width.
impl<A, B, Rest> Packable for Cons<A, Cons<B, Rest>> where
    A: Packable,
    B: Packable,
    Rest: Packable,
    B::Vector: Packed<Width = <A::Vector as Packed>::Width>,
    Rest::Vector: Packed<Width = <A::Vector as Packed>::Width>,
 {
    type Vector = Cons<A::Vector, Cons<B::Vector, Rest::Vector>>;
}

} // verus!
