use packed_lanes::{Cons, CustomPacked, Lanes2, Nil, Packed, PackedGats};

#[derive(Debug, Copy, Clone, PartialEq)]
struct Rgb<V> {
    r: V,
    g: V,
    b: V,
}

impl<V: Packed> CustomPacked for Rgb<V> {
    type CustomScalar = Rgb<V::Scalar>;
    type BaseScalar = Cons<V::Scalar, Cons<V::Scalar, Cons<V::Scalar, Nil>>>;
    type BaseVector = Cons<V, Cons<V, Cons<V, Nil>>>;

    fn spec_vector_into_base(vector: Self) -> Self::BaseVector {
        Self::vector_into_base(vector)
    }

    fn spec_vector_from_base(vector: Self::BaseVector) -> Self {
        Self::vector_from_base(vector)
    }

    fn spec_scalar_into_base(scalar: Self::CustomScalar) -> Self::BaseScalar {
        Self::scalar_into_base(scalar)
    }

    fn spec_scalar_from_base(scalar: Self::BaseScalar) -> Self::CustomScalar {
        Self::scalar_from_base(scalar)
    }

    fn vector_round_trip(_vector: Self) {}

    fn base_vector_round_trip(_vector: Self::BaseVector) {}

    fn scalar_round_trip(_scalar: Self::CustomScalar) {}

    fn base_scalar_round_trip(_scalar: Self::BaseScalar) {}

    fn vector_into_base(vector: Self) -> Self::BaseVector {
        Cons(vector.r, Cons(vector.g, Cons(vector.b, Nil)))
    }

    fn vector_from_base(vector: Self::BaseVector) -> Self {
        let Cons(r, Cons(g, Cons(b, Nil))) = vector;
        Rgb { r, g, b }
    }

    fn scalar_into_base(scalar: Self::CustomScalar) -> Self::BaseScalar {
        Cons(scalar.r, Cons(scalar.g, Cons(scalar.b, Nil)))
    }

    fn scalar_from_base(scalar: Self::BaseScalar) -> Self::CustomScalar {
        let Cons(r, Cons(g, Cons(b, Nil))) = scalar;
        Rgb { r, g, b }
    }

    fn vector_as_base<'a>(vector: &'a Self) -> <Self::BaseVector as PackedGats>::Ref<'a> {
        Cons(
            vector.r.as_packed_ref(),
            Cons(vector.g.as_packed_ref(), Cons(vector.b.as_packed_ref(), Nil)),
        )
    }

    fn vector_as_base_mut<'a>(
        vector: &'a mut Self,
    ) -> <Self::BaseVector as PackedGats>::RefMut<'a> {
        Cons(
            vector.r.as_packed_mut(),
            Cons(vector.g.as_packed_mut(), Cons(vector.b.as_packed_mut(), Nil)),
        )
    }
}

type Pixels = Rgb<Lanes2<u8>>;

#[test]
fn a_declared_adapter_is_a_packed_vector() {
    let v = <Pixels as Packed>::splat(Rgb { r: 1, g: 2, b: 3 });
    assert_eq!(v, Rgb { r: Lanes2([1, 1]), g: Lanes2([2, 2]), b: Lanes2([3, 3]) });
    assert_eq!(<Pixels as Packed>::WIDTH, 2);
    assert_eq!(v.extract(1), Some(Rgb { r: 1, g: 2, b: 3 }));
    assert_eq!(v.extract(2), None);
    let w = v.replace(0, Rgb { r: 7, g: 8, b: 9 }).unwrap();
    assert_eq!(w, Rgb { r: Lanes2([7, 1]), g: Lanes2([8, 2]), b: Lanes2([9, 3]) });
    assert_eq!(w.coalesce(), Rgb { r: 7, g: 8, b: 9 });
    assert_eq!(v.replace(2, Rgb { r: 7, g: 8, b: 9 }), None);
}

#[test]
fn a_declared_adapter_loads_and_stores_by_its_parts() {
    let r = [1u8, 2];
    let g = [3u8, 4, 5];
    let b = [6u8, 7];
    let v = <Pixels as Packed>::load_unaligned(Cons(&r[..], Cons(&g[..], Cons(&b[..], Nil))));
    assert_eq!(v, Some(Rgb { r: Lanes2([1, 2]), g: Lanes2([3, 4]), b: Lanes2([6, 7]) }));
    let mut x = [0u8; 2];
    let mut y = [0u8; 2];
    let mut z = [0u8; 3];
    let stored = v.unwrap().store_unaligned(
        Cons(&mut x[..], Cons(&mut y[..], Cons(&mut z[..], Nil))),
    );
    assert!(stored);
    assert_eq!((x, y, z), ([1, 2], [3, 4], [6, 7, 0]));
}

#[test]
fn a_declared_adapter_round_trips_through_its_base() {
    let v = Rgb { r: Lanes2([1u8, 2]), g: Lanes2([3u8, 4]), b: Lanes2([5u8, 6]) };
    assert_eq!(Pixels::vector_from_base(Pixels::vector_into_base(v)), v);
    let s = Rgb { r: 1u8, g: 2u8, b: 3u8 };
    assert_eq!(Pixels::scalar_from_base(Pixels::scalar_into_base(s)), s);
}

#[test]
fn adapters_nest() {
    type Nested = Rgb<Rgb<Lanes2<u8>>>;
    let inner = Rgb { r: 1u8, g: 2u8, b: 3u8 };
    let v = <Nested as Packed>::splat(Rgb { r: inner, g: inner, b: inner });
    assert_eq!(v.r.g, Lanes2([2, 2]));
    assert_eq!(v.extract(0), Some(Rgb { r: inner, g: inner, b: inner }));
}
