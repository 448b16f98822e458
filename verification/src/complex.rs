//! A vector of complex numbers: real parts in one vector, imaginary parts in
//! another.
//!
//! [`Complex`] declares its correspondence to the list of its two parts, and
//! is a packed vector by that alone.

use vstd::prelude::*;
use crate::custom::CustomPacked;
use crate::packed::{Packed, PackedGats};
use crate::vlist::{Cons, Nil};

verus! {

/// A real and an imaginary part: two scalars, or two vectors of as many lanes.
#[derive(Debug, Copy, Clone, PartialEq)]
pub struct Complex<V> {
    pub real: V,
    pub imag: V,
}

impl<V: Packed> CustomPacked for Complex<V> {
    type CustomScalar = Complex<V::Scalar>;

    type BaseScalar = Cons<V::Scalar, Cons<V::Scalar, Nil>>;

    type BaseVector = Cons<V, Cons<V, Nil>>;

    open spec fn spec_vector_into_base(vector: Self) -> Self::BaseVector {
        Cons(vector.real, Cons(vector.imag, Nil))
    }

    open spec fn spec_vector_from_base(vector: Self::BaseVector) -> Self {
        Complex { real: vector.0, imag: vector.1.0 }
    }

    open spec fn spec_scalar_into_base(scalar: Self::CustomScalar) -> Self::BaseScalar {
        Cons(scalar.real, Cons(scalar.imag, Nil))
    }

    open spec fn spec_scalar_from_base(scalar: Self::BaseScalar) -> Self::CustomScalar {
        Complex { real: scalar.0, imag: scalar.1.0 }
    }

    proof fn vector_round_trip(vector: Self) {
    }

    proof fn base_vector_round_trip(vector: Self::BaseVector) {
        assert(vector.1.1 == Nil);
    }

    proof fn scalar_round_trip(scalar: Self::CustomScalar) {
    }

    proof fn base_scalar_round_trip(scalar: Self::BaseScalar) {
        assert(scalar.1.1 == Nil);
    }

    fn vector_into_base(vector: Self) -> (base: Self::BaseVector) {
        let Complex { real: re, imag: im } = vector;
        Cons(re, Cons(im, Nil))
    }

    fn vector_from_base(vector: Self::BaseVector) -> (custom: Self) {
        let Cons(re, Cons(im, _)) = vector;
        Complex { real: re, imag: im }
    }

    fn scalar_into_base(scalar: Self::CustomScalar) -> (base: Self::BaseScalar) {
        let Complex { real: re, imag: im } = scalar;
        Cons(re, Cons(im, Nil))
    }

    fn scalar_from_base(scalar: Self::BaseScalar) -> (custom: Self::CustomScalar) {
        let Cons(re, Cons(im, _)) = scalar;
        Complex { real: re, imag: im }
    }

    fn vector_as_base<'a>(vector: &'a Self) -> (refs: <Self::BaseVector as PackedGats>::Ref<'a>) {
        let Complex { real: re, imag: im } = vector;
        Cons(re.as_packed_ref(), Cons(im.as_packed_ref(), Nil))
    }

    /// The result holds the reference shapes of mutable borrows of the two
    /// parts: what is written through either is written to that part.
    fn vector_as_base_mut<'a>(vector: &'a mut Self) -> (refs: <Self::BaseVector as PackedGats>::RefMut<
        'a,
    >)
        ensures
            exists|re: &mut V|
                *re == old(vector).real && *final(re) == final(vector).real
                    && #[trigger] call_ensures(V::as_packed_mut, (re,), refs.0),
            exists|im: &mut V|
                *im == old(vector).imag && *final(im) == final(vector).imag
                    && #[trigger] call_ensures(V::as_packed_mut, (im,), refs.1.0),
    {
        let Complex { real: re, imag: im } = vector;
        let re = re.as_packed_mut();
        assert(exists|r: &mut V|
            *r == old(vector).real && #[trigger] call_ensures(V::as_packed_mut, (r,), re));
        let im = im.as_packed_mut();
        assert(exists|r: &mut V|
            *r == old(vector).imag && #[trigger] call_ensures(V::as_packed_mut, (r,), im));
        Cons(re, Cons(im, Nil))
    }
}

} // verus!
