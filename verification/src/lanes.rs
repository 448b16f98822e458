//! The two-lane register: the vector that every other vector here is made of.

use vstd::prelude::*;
use vstd::std_specs::ops::MulSpec;
use crate::packed::{
    Packable, Packed, PackedGats, PrimitivePackable, PrimitivePacked, TypeLevelUsize, P2,
};

verus! {

/// A register of two lanes, lane 0 first.
#[derive(Debug, Copy, Clone, PartialEq)]
pub struct Lanes2<T>(pub [T; 2]);

/// The shapes of a register are plain: a reference to it, and a slice of its
/// scalars.
impl<T: 'static> PackedGats for Lanes2<T> {
    type Ref<'a> = &'a Self;

    type RefMut<'a> = &'a mut Self;

    type ScalarSlice<'a> = &'a [T];

    type ScalarSliceMut<'a> = &'a mut [T];

    open spec fn ref_value<'a>(refs: Self::Ref<'a>) -> Self {
        *refs
    }

    open spec fn ref_mut_value<'a>(refs: Self::RefMut<'a>) -> Self {
        *refs
    }

    open spec fn slice_mut_value<'a>(data: Self::ScalarSliceMut<'a>) -> Self::ScalarSlice<'a> {
        &*data
    }

    fn as_packed_ref<'a>(&'a self) -> (refs: Self::Ref<'a>) {
        self
    }

    /// The result is `self`: what is written through it is written to the register.
    fn as_packed_mut<'a>(&'a mut self) -> (refs: Self::RefMut<'a>)
        ensures
            *final(refs) == *final(self),
    {
        self
    }
}

/// The lanes of a register are the items of its array, and the scalars of a
/// slice are its items.
impl<T: Copy + Default + 'static> Packed for Lanes2<T> {
    type Scalar = T;

    type Width = P2;

    open spec fn lane(&self, idx: int) -> T {
        self.0@[idx]
    }

    open spec fn slice_len<'a>(data: &'a [T]) -> nat {
        data@.len()
    }

    open spec fn slice_lane<'a>(data: &'a [T], idx: int) -> T {
        data@[idx]
    }

    open spec fn is_default_scalar(scalar: T) -> bool {
        call_ensures(T::default, (), scalar)
    }

    fn load_unaligned<'a>(data: &'a [T]) -> (loaded: Option<Self>) {
        if data.len() >= 2 {
            Some(Lanes2([data[0], data[1]]))
        } else {
            None
        }
    }

    fn load_unaligned_unchecked<'a>(data: &'a [T]) -> (v: Self) {
        Lanes2([data[0], data[1]])
    }

    /// On success the first two scalars of `data` are the lanes and the rest
    /// is as it was. On failure `data` is as it was.
    fn store_unaligned<'a>(self, data: &'a mut [T]) -> (stored: bool)
        ensures
            stored ==> final(data)@ == self.0@ + old(data)@.skip(2),
            !stored ==> final(data)@ == old(data)@,
    {
        if data.len() >= 2 {
            data[0] = self.0[0];
            data[1] = self.0[1];
            assert(data@ =~= self.0@ + old(data)@.skip(2));
            true
        } else {
            false
        }
    }

    /// Afterwards the first two scalars of `data` are the lanes and the rest
    /// is as it was.
    fn store_unaligned_unchecked<'a>(self, data: &'a mut [T])
        ensures
            final(data)@ == self.0@ + old(data)@.skip(2),
    {
        data[0] = self.0[0];
        data[1] = self.0[1];
        assert(data@ =~= self.0@ + old(data)@.skip(2));
    }

    fn coalesce(self) -> (scalar: T) {
        self.0[0]
    }

    fn _proxy_extract<'a>(refs: &'a Self, idx: usize) -> (scalar: Option<T>) {
        assert(Self::Width::spec_value() == 2);
        if idx < 2 {
            Some(refs.0[idx])
        } else {
            None
        }
    }

    fn _proxy_extract_unchecked<'a>(refs: &'a Self, idx: usize) -> (scalar: T) {
        assert(Self::Width::spec_value() == 2);
        refs.0[idx]
    }

    fn replace(self, idx: usize, data: T) -> (replaced: Option<Self>) {
        if idx < 2 {
            let mut lanes = self.0;
            lanes[idx] = data;
            Some(Lanes2(lanes))
        } else {
            None
        }
    }

    fn replace_unchecked(self, idx: usize, data: T) -> (v: Self) {
        let mut lanes = self.0;
        lanes[idx] = data;
        Lanes2(lanes)
    }

    fn splat(data: T) -> (v: Self) {
        Lanes2([data, data])
    }

    fn default() -> (v: Self) {
        let scalar = T::default();
        Lanes2([scalar, scalar])
    }
}

impl<T: Copy + Default + std::ops::Mul<Output = T> + 'static> PrimitivePacked for Lanes2<T> {
    /// The scalar type accepts the multiplication of lane 0 by lane 1: for an
    /// integer type, the product fits.
    open spec fn product_defined(&self) -> bool {
        self.0@[0].mul_req(self.0@[1])
    }

    /// Where the scalar type says what its multiplication gives, `scalar` is
    /// lane 0 times lane 1.
    open spec fn is_product(&self, scalar: T) -> bool {
        T::obeys_mul_spec() ==> scalar == self.0@[0].mul_spec(self.0@[1])
    }

    fn product(&self) -> (scalar: T) {
        self.0[0] * self.0[1]
    }
}

/// Scalars of 64 bits go into the two-lane register.
impl Packable for u64 {
    type Vector = Lanes2<u64>;
}

impl PrimitivePackable for u64 {
    const SIZE: usize = 64;
}

impl Packable for i64 {
    type Vector = Lanes2<i64>;
}

impl PrimitivePackable for i64 {
    const SIZE: usize = 64;
}

} // verus!
