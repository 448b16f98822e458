//! Vectors of one's own, by way of a vector that is there already.
//!
//! A type that states how it corresponds to a base vector, lane for lane and
//! scalar for scalar, is a packed vector itself: [`CustomPacked`] is that
//! statement, and every operation of [`Packed`] follows from it.

use vstd::prelude::*;
use crate::packed::{Packed, PackedGats, TypeLevelUsize};

verus! {

/// A vector type that corresponds one to one to a base vector type, and its
/// scalar to the scalar of the base.
///
/// The four conversions come in pairs that undo each other. Every operation
/// of [`Packed`] on `Self` rests on that, so the trait asks for its proof.
pub trait CustomPacked: Sized {
    /// What one lane holds.
    type CustomScalar;

    /// What one lane of the base vector holds.
    type BaseScalar;

    /// The vector that `Self` corresponds to.
    type BaseVector: Packed<Scalar = Self::BaseScalar>;

    /// The base vector that stands for `vector`.
    spec fn spec_vector_into_base(vector: Self) -> Self::BaseVector;

    /// The vector that `vector` stands for.
    spec fn spec_vector_from_base(vector: Self::BaseVector) -> Self;

    /// The base scalar that stands for `scalar`.
    spec fn spec_scalar_into_base(scalar: Self::CustomScalar) -> Self::BaseScalar;

    /// The scalar that `scalar` stands for.
    spec fn spec_scalar_from_base(scalar: Self::BaseScalar) -> Self::CustomScalar;

    /// A vector comes back from its base form.
    proof fn vector_round_trip(vector: Self)
        ensures
            Self::spec_vector_from_base(Self::spec_vector_into_base(vector)) == vector,
    ;

    /// A base vector comes back from the form it stands for.
    proof fn base_vector_round_trip(vector: Self::BaseVector)
        ensures
            Self::spec_vector_into_base(Self::spec_vector_from_base(vector)) == vector,
    ;

    /// A scalar comes back from its base form.
    proof fn scalar_round_trip(scalar: Self::CustomScalar)
        ensures
            Self::spec_scalar_from_base(Self::spec_scalar_into_base(scalar)) == scalar,
    ;

    /// A base scalar comes back from the form it stands for.
    proof fn base_scalar_round_trip(scalar: Self::BaseScalar)
        ensures
            Self::spec_scalar_into_base(Self::spec_scalar_from_base(scalar)) == scalar,
    ;

    /// Turns a vector into its base form.
    fn vector_into_base(vector: Self) -> (base: Self::BaseVector)
        ensures
            base == Self::spec_vector_into_base(vector),
    ;

    /// Turns a base vector into the vector that it stands for.
    fn vector_from_base(vector: Self::BaseVector) -> (custom: Self)
        ensures
            custom == Self::spec_vector_from_base(vector),
    ;

    /// Turns a scalar into its base form.
    fn scalar_into_base(scalar: Self::CustomScalar) -> (base: Self::BaseScalar)
        ensures
            base == Self::spec_scalar_into_base(scalar),
    ;

    /// Turns a base scalar into the scalar that it stands for.
    fn scalar_from_base(scalar: Self::BaseScalar) -> (custom: Self::CustomScalar)
        ensures
            custom == Self::spec_scalar_from_base(scalar),
    ;

    /// Borrows `vector` in the reference shape of its base form.
    fn vector_as_base<'a>(vector: &'a Self) -> (refs: <Self::BaseVector as PackedGats>::Ref<'a>)
        ensures
            <Self::BaseVector as PackedGats>::ref_value(refs) == Self::spec_vector_into_base(
                *vector,
            ),
    ;

    /// Borrows `vector` mutably in the reference shape of its base form.
    ///
    /// What a write through the result does to `vector` is stated by each
    /// implementation.
    fn vector_as_base_mut<'a>(vector: &'a mut Self) -> (refs: <Self::BaseVector as PackedGats>::RefMut<
        'a,
    >)
        ensures
            <Self::BaseVector as PackedGats>::ref_mut_value(refs)
                == Self::spec_vector_into_base(*old(vector)),
    ;
}

/// The shapes of a custom vector are those of its base vector.
impl<T> PackedGats for T where T: CustomPacked {
    type Ref<'a> = <T::BaseVector as PackedGats>::Ref<'a>;

    type RefMut<'a> = <T::BaseVector as PackedGats>::RefMut<'a>;

    type ScalarSlice<'a> = <T::BaseVector as PackedGats>::ScalarSlice<'a>;

    type ScalarSliceMut<'a> = <T::BaseVector as PackedGats>::ScalarSliceMut<'a>;

    open spec fn ref_value<'a>(refs: Self::Ref<'a>) -> Self {
        T::spec_vector_from_base(<T::BaseVector as PackedGats>::ref_value(refs))
    }

    open spec fn ref_mut_value<'a>(refs: Self::RefMut<'a>) -> Self {
        T::spec_vector_from_base(<T::BaseVector as PackedGats>::ref_mut_value(refs))
    }

    open spec fn slice_mut_value<'a>(data: Self::ScalarSliceMut<'a>) -> Self::ScalarSlice<'a> {
        <T::BaseVector as PackedGats>::slice_mut_value(data)
    }

    fn as_packed_ref<'a>(&'a self) -> (refs: Self::Ref<'a>) {
        proof {
            T::vector_round_trip(*self);
        }
        T::vector_as_base(self)
    }

    /// The result is what `vector_as_base_mut` gives for `self`.
    fn as_packed_mut<'a>(&'a mut self) -> (refs: Self::RefMut<'a>)
        ensures
            exists|vector: &mut T|
                *vector == *old(self) && *final(vector) == *final(self) && #[trigger] call_ensures(
                    T::vector_as_base_mut,
                    (vector,),
                    refs,
                ),
    {
        proof {
            T::vector_round_trip(*self);
        }
        let refs = T::vector_as_base_mut(self);
        assert(exists|vector: &mut T|
            *vector == *old(self) && #[trigger] call_ensures(
                T::vector_as_base_mut,
                (vector,),
                refs,
            ));
        refs
    }
}

/// A custom vector has the width of its base vector. Its lane `i` is the
/// scalar that lane `i` of its base form stands for, and every operation goes
/// through the base form.
impl<T> Packed for T where T: CustomPacked {
    type Scalar = T::CustomScalar;

    type Width = <T::BaseVector as Packed>::Width;

    open spec fn lane(&self, idx: int) -> Self::Scalar {
        T::spec_scalar_from_base(T::spec_vector_into_base(*self).lane(idx))
    }

    open spec fn slice_len<'a>(data: Self::ScalarSlice<'a>) -> nat {
        <T::BaseVector as Packed>::slice_len(data)
    }

    open spec fn slice_lane<'a>(data: Self::ScalarSlice<'a>, idx: int) -> Self::Scalar {
        T::spec_scalar_from_base(<T::BaseVector as Packed>::slice_lane(data, idx))
    }

    open spec fn is_default_scalar(scalar: Self::Scalar) -> bool {
        exists|base: T::BaseScalar|
            #[trigger] <T::BaseVector as Packed>::is_default_scalar(base) && scalar
                == T::spec_scalar_from_base(base)
    }

    fn load_unaligned<'a>(data: Self::ScalarSlice<'a>) -> (loaded: Option<Self>) {
        let base = <T::BaseVector as Packed>::load_unaligned(data)?;
        proof {
            T::base_vector_round_trip(base);
        }
        Some(T::vector_from_base(base))
    }

    fn load_unaligned_unchecked<'a>(data: Self::ScalarSlice<'a>) -> (v: Self) {
        let base = <T::BaseVector as Packed>::load_unaligned_unchecked(data);
        proof {
            T::base_vector_round_trip(base);
        }
        T::vector_from_base(base)
    }

    /// The base form of the vector is stored into `data`, as the base
    /// vector's `store_unaligned` states.
    fn store_unaligned<'a>(self, data: Self::ScalarSliceMut<'a>) -> (stored: bool)
        ensures
            call_ensures(
                <T::BaseVector as Packed>::store_unaligned,
                (T::spec_vector_into_base(self), data),
                stored,
            ),
    {
        T::vector_into_base(self).store_unaligned(data)
    }

    /// The base form of the vector is stored into `data`, as the base
    /// vector's `store_unaligned_unchecked` states.
    fn store_unaligned_unchecked<'a>(self, data: Self::ScalarSliceMut<'a>)
        ensures
            call_ensures(
                <T::BaseVector as Packed>::store_unaligned_unchecked,
                (T::spec_vector_into_base(self), data),
                (),
            ),
    {
        T::vector_into_base(self).store_unaligned_unchecked(data)
    }

    fn coalesce(self) -> (scalar: Self::Scalar) {
        T::scalar_from_base(T::vector_into_base(self).coalesce())
    }

    fn _proxy_extract<'a>(refs: Self::Ref<'a>, idx: usize) -> (scalar: Option<
        Self::Scalar,
    >) {
        proof {
            T::base_vector_round_trip(<T::BaseVector as PackedGats>::ref_value(refs));
        }
        let base = <T::BaseVector as Packed>::_proxy_extract(refs, idx)?;
        Some(T::scalar_from_base(base))
    }

    fn _proxy_extract_unchecked<'a>(refs: Self::Ref<'a>, idx: usize) -> (scalar:
        Self::Scalar) {
        proof {
            T::base_vector_round_trip(<T::BaseVector as PackedGats>::ref_value(refs));
        }
        T::scalar_from_base(<T::BaseVector as Packed>::_proxy_extract_unchecked(refs, idx))
    }

    fn replace(self, idx: usize, data: Self::Scalar) -> (replaced: Option<Self>) {
        let base = T::vector_into_base(self);
        let base = base.replace(idx, T::scalar_into_base(data))?;
        proof {
            T::base_vector_round_trip(base);
            T::scalar_round_trip(data);
        }
        Some(T::vector_from_base(base))
    }

    fn replace_unchecked(self, idx: usize, data: Self::Scalar) -> (v: Self) {
        let base = T::vector_into_base(self);
        let base = base.replace_unchecked(idx, T::scalar_into_base(data));
        proof {
            T::base_vector_round_trip(base);
            T::scalar_round_trip(data);
        }
        T::vector_from_base(base)
    }

    fn splat(data: Self::Scalar) -> (v: Self) {
        let base = <T::BaseVector as Packed>::splat(T::scalar_into_base(data));
        proof {
            T::base_vector_round_trip(base);
            T::scalar_round_trip(data);
        }
        T::vector_from_base(base)
    }

    fn default() -> (v: Self) {
        let base = <T::BaseVector as Packed>::default();
        proof {
            T::base_vector_round_trip(base);
        }
        T::vector_from_base(base)
    }
}

} // verus!
