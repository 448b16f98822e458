//! Packed vectors of lanes behind one interface.
//!
//! A packed vector holds a fixed number of scalars, its lanes. The same
//! operations (load, store, extract, replace, splat, reduce, coalesce) work on
//! a single register, on a list of registers that share one width, and on any
//! type that declares how it maps onto such a list.
//!
//! - [`vlist`]: heterogeneous lists, which are also zipped iterators;
//!   [`ops`]: their operators.
//! - [`packed`]: the interface. [`lanes`]: the register. [`compose`]: lists
//!   of vectors as vectors. [`custom`]: vectors declared by a correspondence;
//!   [`complex`]: one such vector.
//! - [`laws`]: what holds of every vector.

pub mod vlist;
pub mod ops;
pub mod packed;
pub mod lanes;
pub mod compose;
pub mod custom;
pub mod complex;
pub mod laws;

pub use crate::vlist::{Cons, Nil};
pub use crate::packed::{
    Packable, Packed, PackedGats, PrimitivePackable, PrimitivePacked, TypeLevelUsize,
};
pub use crate::custom::CustomPacked;
pub use crate::complex::Complex;
pub use crate::packed::{P1, P2, P4, P8, P16, P32};
pub use crate::lanes::Lanes2;
