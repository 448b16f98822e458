//! The packed-vector interface.
//!
//! A vector is described by its lanes: `v.lane(i)` for `0 <= i < WIDTH`. Every
//! operation of [`Packed`] is stated over that description. The checked
//! operations report a short slice or a lane index out of range in their
//! result; the unchecked ones leave it to the caller and say so in `requires`.

use vstd::prelude::*;

verus! {

/// Whether `n` is one of the lane counts that a width tag may stand for.
pub open spec fn is_lane_count(n: nat) -> bool {
    n == 1 || n == 2 || n == 4 || n == 8 || n == 16 || n == 32
}

/// A type that stands for a number of lanes. Only the type is used: the tags
/// below have one value each, which nothing holds.
pub trait TypeLevelUsize {
    /// The number of lanes.
    const VALUE: usize;

    /// The number of lanes, as contracts speak of it.
    spec fn spec_value() -> nat;

    /// `VALUE` is the number that contracts speak of, and it is one of 1, 2,
    /// 4, 8, 16 and 32.
    proof fn value_is_lane_count()
        ensures
            Self::VALUE == Self::spec_value(),
            is_lane_count(Self::spec_value()),
    ;
}

/// One lane.
pub enum P1 {
    Tag,
}

/// Two lanes.
pub enum P2 {
    Tag,
}

/// Four lanes.
pub enum P4 {
    Tag,
}

/// Eight lanes.
pub enum P8 {
    Tag,
}

/// Sixteen lanes.
pub enum P16 {
    Tag,
}

/// Thirty-two lanes.
pub enum P32 {
    Tag,
}

impl TypeLevelUsize for P1 {
    const VALUE: usize = 1;

    open spec fn spec_value() -> nat {
        1
    }

    proof fn value_is_lane_count() {
    }
}

impl TypeLevelUsize for P2 {
    const VALUE: usize = 2;

    open spec fn spec_value() -> nat {
        2
    }

    proof fn value_is_lane_count() {
    }
}

impl TypeLevelUsize for P4 {
    const VALUE: usize = 4;

    open spec fn spec_value() -> nat {
        4
    }

    proof fn value_is_lane_count() {
    }
}

impl TypeLevelUsize for P8 {
    const VALUE: usize = 8;

    open spec fn spec_value() -> nat {
        8
    }

    proof fn value_is_lane_count() {
    }
}

impl TypeLevelUsize for P16 {
    const VALUE: usize = 16;

    open spec fn spec_value() -> nat {
        16
    }

    proof fn value_is_lane_count() {
    }
}

impl TypeLevelUsize for P32 {
    const VALUE: usize = 32;

    open spec fn spec_value() -> nat {
        32
    }

    proof fn value_is_lane_count() {
    }
}

/// The shapes that go with a vector type for one borrow: what `&self` and
/// `&mut self` look like, and what borrowed scalar memory looks like.
///
/// For a register these are plain references and slices. For a list of
/// vectors each is a list of the elements' shapes, element by element.
pub trait PackedGats: Sized {
    /// Stands in for `&self`.
    type Ref<'a>;

    /// Stands in for `&mut self`.
    type RefMut<'a>;

    /// Scalar memory to read from.
    type ScalarSlice<'a>;

    /// Scalar memory to write to.
    type ScalarSliceMut<'a>;

    /// The vector that `refs` points to.
    spec fn ref_value<'a>(refs: Self::Ref<'a>) -> Self;

    /// The vector that `refs` points to at present.
    spec fn ref_mut_value<'a>(refs: Self::RefMut<'a>) -> Self;

    /// What `data` holds at present, as memory to read from.
    spec fn slice_mut_value<'a>(data: Self::ScalarSliceMut<'a>) -> Self::ScalarSlice<'a>;

    /// Borrows the vector in its reference shape.
    fn as_packed_ref<'a>(&'a self) -> (refs: Self::Ref<'a>)
        ensures
            Self::ref_value(refs) == *self,
    ;

    /// Borrows the vector mutably in its reference shape.
    ///
    /// What a write through the result does to the vector is stated by each
    /// implementation, where the shape is known.
    fn as_packed_mut<'a>(&'a mut self) -> (refs: Self::RefMut<'a>)
        ensures
            Self::ref_mut_value(refs) == *old(self),
    ;
}

/// Whether `out` can come of `n` steps over the first `n` scalars of `lanes`,
/// the first one first, starting from `init`: `step(a, s, r)` says that a step
/// may lead from `a` over the scalar `s` to `r`.
pub open spec fn folds_to<S, T>(
    lanes: Seq<S>,
    step: spec_fn(T, S, T) -> bool,
    init: T,
    n: nat,
    out: T,
) -> bool
    decreases n,
{
    if n == 0 {
        out == init
    } else {
        exists|mid: T|
            folds_to(lanes, step, init, (n - 1) as nat, mid) && #[trigger] step(
                mid,
                lanes[n - 1],
                out,
            )
    }
}

/// Whether `out` can come of folding `func` over the first `n` scalars of
/// `lanes`, the first one first, starting from `init`.
pub open spec fn reduces_to<S, T, F: FnMut(T, S) -> T>(
    lanes: Seq<S>,
    func: F,
    init: T,
    n: nat,
    out: T,
) -> bool {
    folds_to(lanes, |a: T, s: S, r: T| call_ensures(func, (a, s), r), init, n, out)
}

/// A vector of `WIDTH` lanes, each holding one `Scalar`.
///
/// What reads or writes memory, or takes a lane index, comes twice. The
/// checked operation accepts every argument and reports in its result what
/// it could not do. The unchecked one asks the caller for the length or the
/// range, and then cannot fail.
pub trait Packed: PackedGats {
    /// What one lane holds.
    type Scalar;

    /// The tag of the number of lanes.
    type Width: TypeLevelUsize;

    /// The number of lanes, for code that Verus does not read. Contracts
    /// speak of `Self::Width::spec_value()`, and verified code reads
    /// `Self::Width::VALUE`.
    const WIDTH: usize = Self::Width::VALUE;

    /// The scalar in lane `idx`.
    spec fn lane(&self, idx: int) -> Self::Scalar;

    /// The number of scalars that can be read from `data`: for a list of
    /// slices, the length of the shortest.
    spec fn slice_len<'a>(data: Self::ScalarSlice<'a>) -> nat;

    /// The scalar at position `idx` of `data`.
    spec fn slice_lane<'a>(data: Self::ScalarSlice<'a>, idx: int) -> Self::Scalar;

    /// Whether `scalar` is a value that the scalar type's default may take.
    spec fn is_default_scalar(scalar: Self::Scalar) -> bool;

    /// Loads the first `WIDTH` scalars of `data`, or reports that `data` is too short.
    fn load_unaligned<'a>(data: Self::ScalarSlice<'a>) -> (loaded: Option<Self>)
        ensures
            loaded is Some <==> Self::slice_len(data) >= Self::Width::spec_value(),
            loaded matches Some(v) ==> forall|i: int|
                0 <= i < Self::Width::spec_value() ==> #[trigger] v.lane(i) == Self::slice_lane(
                    data,
                    i,
                ),
    ;

    /// Loads the first `WIDTH` scalars of `data`, which the caller knows to be there.
    fn load_unaligned_unchecked<'a>(data: Self::ScalarSlice<'a>) -> (v: Self)
        requires
            Self::slice_len(data) >= Self::Width::spec_value(),
        ensures
            forall|i: int|
                0 <= i < Self::Width::spec_value() ==> #[trigger] v.lane(i) == Self::slice_lane(
                    data,
                    i,
                ),
    ;

    /// Writes the lanes to the first `WIDTH` positions of `data`, or reports
    /// that `data` is too short. A list of slices is too short where one of
    /// them is.
    ///
    /// What `data` holds afterwards is stated by each implementation, where
    /// the shape of `data` is known.
    #[must_use]
    fn store_unaligned<'a>(self, data: Self::ScalarSliceMut<'a>) -> (stored: bool)
        ensures
            stored <==> Self::slice_len(Self::slice_mut_value(data)) >= Self::Width::spec_value(),
    ;

    /// Writes the lanes to the first `WIDTH` positions of `data`, which the
    /// caller knows to be there.
    ///
    /// What `data` holds afterwards is stated by each implementation, where
    /// the shape of `data` is known.
    fn store_unaligned_unchecked<'a>(self, data: Self::ScalarSliceMut<'a>)
        requires
            Self::slice_len(Self::slice_mut_value(data)) >= Self::Width::spec_value(),
    ;

    /// The scalar of a vector whose lanes are all equal: lane 0, also where
    /// the lanes differ.
    fn coalesce(self) -> (scalar: Self::Scalar)
        ensures
            scalar == self.lane(0),
    ;

    /// The scalar in lane `idx`, or `None` where there is no such lane.
    fn extract(&self, idx: usize) -> (scalar: Option<Self::Scalar>)
        ensures
            scalar == (if idx < Self::Width::spec_value() {
                Some(self.lane(idx as int))
            } else {
                None
            }),
    {
        Self::_proxy_extract(self.as_packed_ref(), idx)
    }

    /// The scalar in lane `idx`, which the caller knows to exist.
    fn extract_unchecked(&self, idx: usize) -> (scalar: Self::Scalar)
        requires
            idx < Self::Width::spec_value(),
        ensures
            scalar == self.lane(idx as int),
    {
        Self::_proxy_extract_unchecked(self.as_packed_ref(), idx)
    }

    /// [`Packed::extract`] on the reference shape: the method that a vector
    /// type implements.
    fn _proxy_extract<'a>(refs: Self::Ref<'a>, idx: usize) -> (scalar: Option<
        Self::Scalar,
    >)
        ensures
            scalar == (if idx < Self::Width::spec_value() {
                Some(Self::ref_value(refs).lane(idx as int))
            } else {
                None
            }),
    ;

    /// [`Packed::extract_unchecked`] on the reference shape.
    fn _proxy_extract_unchecked<'a>(refs: Self::Ref<'a>, idx: usize) -> (scalar:
        Self::Scalar)
        requires
            idx < Self::Width::spec_value(),
        ensures
            scalar == Self::ref_value(refs).lane(idx as int),
    ;

    /// The vector with lane `idx` set to `data` and every other lane kept, or
    /// `None` where there is no such lane.
    fn replace(self, idx: usize, data: Self::Scalar) -> (replaced: Option<Self>)
        ensures
            replaced is Some <==> idx < Self::Width::spec_value(),
            replaced matches Some(v) ==> forall|i: int|
                0 <= i < Self::Width::spec_value() ==> #[trigger] v.lane(i) == (if i == idx {
                    data
                } else {
                    self.lane(i)
                }),
    ;

    /// The vector with lane `idx`, which the caller knows to exist, set to
    /// `data` and every other lane kept.
    fn replace_unchecked(self, idx: usize, data: Self::Scalar) -> (v: Self)
        requires
            idx < Self::Width::spec_value(),
        ensures
            forall|i: int|
                0 <= i < Self::Width::spec_value() ==> #[trigger] v.lane(i) == (if i == idx {
                    data
                } else {
                    self.lane(i)
                }),
    ;

    /// The vector with `data` in every lane.
    fn splat(data: Self::Scalar) -> (v: Self)
        ensures
            forall|i: int| 0 <= i < Self::Width::spec_value() ==> #[trigger] v.lane(i) == data,
    ;

    /// The vector with the scalar type's default in every lane.
    fn default() -> (v: Self)
        ensures
            Self::is_default_scalar(v.lane(0)),
            forall|i: int| 0 <= i < Self::Width::spec_value() ==> #[trigger] v.lane(i) == v.lane(0),
    ;

    /// Folds `func` over the lanes, lane 0 first, starting from `acc`.
    ///
    /// `func` must accept what it is called with: the accumulator that the
    /// lanes before lane `n` can lead to, and lane `n`.
    fn scalar_reduce<T, F>(&self, acc: T, func: F) -> (out: T) where
        F: FnMut(T, Self::Scalar) -> T,

        requires
            forall|n: int, a: T|
                0 <= n < Self::Width::spec_value() && reduces_to(
                    Seq::new(Self::Width::spec_value(), |i: int| self.lane(i)),
                    func,
                    acc,
                    n as nat,
                    a,
                ) ==> #[trigger] call_requires(func, (a, self.lane(n))),
        ensures
            reduces_to(
                Seq::new(Self::Width::spec_value(), |i: int| self.lane(i)),
                func,
                acc,
                Self::Width::spec_value(),
                out,
            ),
    {
        let ghost f0 = func;
        let mut acc = acc;
        let mut func = func;
        let ghost lanes = Seq::new(Self::Width::spec_value(), |i: int| self.lane(i));
        let ghost a0 = acc;
        let mut i: usize = 0;
        proof {
            Self::Width::value_is_lane_count();
        }
        while i < Self::Width::VALUE
            invariant
                i <= Self::Width::VALUE == Self::Width::spec_value(),
                lanes == Seq::new(Self::Width::spec_value(), |i: int| self.lane(i)),
                func == f0,
                forall|n: int, a: T|
                    0 <= n < Self::Width::spec_value() && reduces_to(lanes, func, a0, n as nat, a)
                        ==> #[trigger] call_requires(func, (a, self.lane(n))),
                reduces_to(lanes, func, a0, i as nat, acc),
            decreases Self::Width::VALUE - i,
        {
            let ghost mid = acc;
            let scalar = self.extract_unchecked(i);
            assert(call_requires(func, (mid, self.lane(i as int))));
            acc = func(acc, scalar);
            proof {
                let step = |a: T, s: Self::Scalar, r: T| call_ensures(func, (a, s), r);
                assert(folds_to(lanes, step, a0, i as nat, mid));
                assert(step(mid, lanes[i + 1 - 1], acc));
            }
            i = i + 1;
        }
        acc
    }
}

/// The lanes of `v` in the order of their indices.
pub open spec fn lanes_of<V: Packed>(v: V) -> Seq<V::Scalar> {
    Seq::new(V::Width::spec_value(), |i: int| v.lane(i))
}

/// What only a register offers, and no list of registers.
pub trait PrimitivePacked: Packed {
    /// Whether the lanes can be multiplied together.
    spec fn product_defined(&self) -> bool;

    /// Whether `scalar` is the product of all lanes.
    spec fn is_product(&self, scalar: Self::Scalar) -> bool;

    /// The product of all lanes.
    fn product(&self) -> (scalar: Self::Scalar)
        requires
            self.product_defined(),
        ensures
            self.is_product(scalar),
    ;
}

/// A scalar type that knows the vector type that holds it.
///
/// Scalars that go into registers have it, and lists of such scalars.
pub trait Packable: Sized {
    /// The vector whose lanes hold `Self`.
    type Vector: Packed<Scalar = Self> + Clone;
}

/// What only a scalar that goes into a register offers.
pub trait PrimitivePackable: Packable {
    /// The number of bits of the scalar.
    const SIZE: usize;
}

} // verus!
