//! Operators on lists, element by element.
//!
//! Where an operator applies to the elements of two lists, it applies to the
//! lists: the result is the list of the elements' results. Two empty lists
//! give the empty list. What an operator asks of its operands and what it
//! gives are the elements' own, for each pair of elements.

use vstd::prelude::*;
use vstd::std_specs::ops::{
    AddSpec, AddSpecImpl, BitAndSpec, BitAndSpecImpl, BitOrSpec, BitOrSpecImpl, BitXorSpec,
    BitXorSpecImpl, DivSpec, DivSpecImpl, MulSpec, MulSpecImpl, NegSpec, NegSpecImpl, NotSpec,
    NotSpecImpl, RemSpec, RemSpecImpl, ShlSpec, ShlSpecImpl, ShrSpec, ShrSpecImpl, SubSpec,
    SubSpecImpl,
};
use std::ops::{Add, BitAnd, BitOr, BitXor, Div, Mul, Neg, Not, Rem, Shl, Shr, Sub};
use crate::vlist::{Cons, Nil};

verus! {

impl Add<Nil> for Nil {
    type Output = Nil;

    fn add(self, rhs: Nil) -> (out: Nil) {
        Nil
    }
}

impl AddSpecImpl<Nil> for Nil {
    open spec fn obeys_add_spec() -> bool {
        true
    }

    open spec fn add_req(self, rhs: Nil) -> bool {
        true
    }

    open spec fn add_spec(self, rhs: Nil) -> Nil {
        Nil
    }
}

/// The sum of two lists is the list of the sums of their heads and of
/// their rests.
impl<H1, H2, HOut, T1, T2, TOut> Add<Cons<H2, T2>> for Cons<H1, T1> where
    H1: Add<H2, Output = HOut>,
    T1: Add<T2, Output = TOut>,
 {
    type Output = Cons<HOut, TOut>;

    fn add(self, rhs: Cons<H2, T2>) -> (out: Cons<HOut, TOut>) {
        Cons(self.0 + rhs.0, self.1 + rhs.1)
    }
}

impl<H1, H2, HOut, T1, T2, TOut> AddSpecImpl<Cons<H2, T2>> for Cons<H1, T1> where
    H1: Add<H2, Output = HOut>,
    T1: Add<T2, Output = TOut>,
 {
    open spec fn obeys_add_spec() -> bool {
        H1::obeys_add_spec() && T1::obeys_add_spec()
    }

    open spec fn add_req(self, rhs: Cons<H2, T2>) -> bool {
        self.0.add_req(rhs.0) && self.1.add_req(rhs.1)
    }

    open spec fn add_spec(self, rhs: Cons<H2, T2>) -> Cons<HOut, TOut> {
        Cons(self.0.add_spec(rhs.0), self.1.add_spec(rhs.1))
    }
}

impl Sub<Nil> for Nil {
    type Output = Nil;

    fn sub(self, rhs: Nil) -> (out: Nil) {
        Nil
    }
}

impl SubSpecImpl<Nil> for Nil {
    open spec fn obeys_sub_spec() -> bool {
        true
    }

    open spec fn sub_req(self, rhs: Nil) -> bool {
        true
    }

    open spec fn sub_spec(self, rhs: Nil) -> Nil {
        Nil
    }
}

/// The difference of two lists is the list of the differences of their heads and of
/// their rests.
impl<H1, H2, HOut, T1, T2, TOut> Sub<Cons<H2, T2>> for Cons<H1, T1> where
    H1: Sub<H2, Output = HOut>,
    T1: Sub<T2, Output = TOut>,
 {
    type Output = Cons<HOut, TOut>;

    fn sub(self, rhs: Cons<H2, T2>) -> (out: Cons<HOut, TOut>) {
        Cons(self.0 - rhs.0, self.1 - rhs.1)
    }
}

impl<H1, H2, HOut, T1, T2, TOut> SubSpecImpl<Cons<H2, T2>> for Cons<H1, T1> where
    H1: Sub<H2, Output = HOut>,
    T1: Sub<T2, Output = TOut>,
 {
    open spec fn obeys_sub_spec() -> bool {
        H1::obeys_sub_spec() && T1::obeys_sub_spec()
    }

    open spec fn sub_req(self, rhs: Cons<H2, T2>) -> bool {
        self.0.sub_req(rhs.0) && self.1.sub_req(rhs.1)
    }

    open spec fn sub_spec(self, rhs: Cons<H2, T2>) -> Cons<HOut, TOut> {
        Cons(self.0.sub_spec(rhs.0), self.1.sub_spec(rhs.1))
    }
}

impl Mul<Nil> for Nil {
    type Output = Nil;

    fn mul(self, rhs: Nil) -> (out: Nil) {
        Nil
    }
}

impl MulSpecImpl<Nil> for Nil {
    open spec fn obeys_mul_spec() -> bool {
        true
    }

    open spec fn mul_req(self, rhs: Nil) -> bool {
        true
    }

    open spec fn mul_spec(self, rhs: Nil) -> Nil {
        Nil
    }
}

/// The product of two lists is the list of the products of their heads and of
/// their rests.
impl<H1, H2, HOut, T1, T2, TOut> Mul<Cons<H2, T2>> for Cons<H1, T1> where
    H1: Mul<H2, Output = HOut>,
    T1: Mul<T2, Output = TOut>,
 {
    type Output = Cons<HOut, TOut>;

    fn mul(self, rhs: Cons<H2, T2>) -> (out: Cons<HOut, TOut>) {
        Cons(self.0 * rhs.0, self.1 * rhs.1)
    }
}

impl<H1, H2, HOut, T1, T2, TOut> MulSpecImpl<Cons<H2, T2>> for Cons<H1, T1> where
    H1: Mul<H2, Output = HOut>,
    T1: Mul<T2, Output = TOut>,
 {
    open spec fn obeys_mul_spec() -> bool {
        H1::obeys_mul_spec() && T1::obeys_mul_spec()
    }

    open spec fn mul_req(self, rhs: Cons<H2, T2>) -> bool {
        self.0.mul_req(rhs.0) && self.1.mul_req(rhs.1)
    }

    open spec fn mul_spec(self, rhs: Cons<H2, T2>) -> Cons<HOut, TOut> {
        Cons(self.0.mul_spec(rhs.0), self.1.mul_spec(rhs.1))
    }
}

impl Div<Nil> for Nil {
    type Output = Nil;

    fn div(self, rhs: Nil) -> (out: Nil) {
        Nil
    }
}

impl DivSpecImpl<Nil> for Nil {
    open spec fn obeys_div_spec() -> bool {
        true
    }

    open spec fn div_req(self, rhs: Nil) -> bool {
        true
    }

    open spec fn div_spec(self, rhs: Nil) -> Nil {
        Nil
    }
}

/// The quotient of two lists is the list of the quotients of their heads and of
/// their rests.
impl<H1, H2, HOut, T1, T2, TOut> Div<Cons<H2, T2>> for Cons<H1, T1> where
    H1: Div<H2, Output = HOut>,
    T1: Div<T2, Output = TOut>,
 {
    type Output = Cons<HOut, TOut>;

    fn div(self, rhs: Cons<H2, T2>) -> (out: Cons<HOut, TOut>) {
        Cons(self.0 / rhs.0, self.1 / rhs.1)
    }
}

impl<H1, H2, HOut, T1, T2, TOut> DivSpecImpl<Cons<H2, T2>> for Cons<H1, T1> where
    H1: Div<H2, Output = HOut>,
    T1: Div<T2, Output = TOut>,
 {
    open spec fn obeys_div_spec() -> bool {
        H1::obeys_div_spec() && T1::obeys_div_spec()
    }

    open spec fn div_req(self, rhs: Cons<H2, T2>) -> bool {
        self.0.div_req(rhs.0) && self.1.div_req(rhs.1)
    }

    open spec fn div_spec(self, rhs: Cons<H2, T2>) -> Cons<HOut, TOut> {
        Cons(self.0.div_spec(rhs.0), self.1.div_spec(rhs.1))
    }
}

impl Rem<Nil> for Nil {
    type Output = Nil;

    fn rem(self, rhs: Nil) -> (out: Nil) {
        Nil
    }
}

impl RemSpecImpl<Nil> for Nil {
    open spec fn obeys_rem_spec() -> bool {
        true
    }

    open spec fn rem_req(self, rhs: Nil) -> bool {
        true
    }

    open spec fn rem_spec(self, rhs: Nil) -> Nil {
        Nil
    }
}

/// The remainder of two lists is the list of the remainders of their heads and of
/// their rests.
impl<H1, H2, HOut, T1, T2, TOut> Rem<Cons<H2, T2>> for Cons<H1, T1> where
    H1: Rem<H2, Output = HOut>,
    T1: Rem<T2, Output = TOut>,
 {
    type Output = Cons<HOut, TOut>;

    fn rem(self, rhs: Cons<H2, T2>) -> (out: Cons<HOut, TOut>) {
        Cons(self.0 % rhs.0, self.1 % rhs.1)
    }
}

impl<H1, H2, HOut, T1, T2, TOut> RemSpecImpl<Cons<H2, T2>> for Cons<H1, T1> where
    H1: Rem<H2, Output = HOut>,
    T1: Rem<T2, Output = TOut>,
 {
    open spec fn obeys_rem_spec() -> bool {
        H1::obeys_rem_spec() && T1::obeys_rem_spec()
    }

    open spec fn rem_req(self, rhs: Cons<H2, T2>) -> bool {
        self.0.rem_req(rhs.0) && self.1.rem_req(rhs.1)
    }

    open spec fn rem_spec(self, rhs: Cons<H2, T2>) -> Cons<HOut, TOut> {
        Cons(self.0.rem_spec(rhs.0), self.1.rem_spec(rhs.1))
    }
}

impl BitAnd<Nil> for Nil {
    type Output = Nil;

    fn bitand(self, rhs: Nil) -> (out: Nil) {
        Nil
    }
}

impl BitAndSpecImpl<Nil> for Nil {
    open spec fn obeys_bitand_spec() -> bool {
        true
    }

    open spec fn bitand_req(self, rhs: Nil) -> bool {
        true
    }

    open spec fn bitand_spec(self, rhs: Nil) -> Nil {
        Nil
    }
}

/// The conjunction of two lists is the list of the conjunctions of their heads and of
/// their rests.
impl<H1, H2, HOut, T1, T2, TOut> BitAnd<Cons<H2, T2>> for Cons<H1, T1> where
    H1: BitAnd<H2, Output = HOut>,
    T1: BitAnd<T2, Output = TOut>,
 {
    type Output = Cons<HOut, TOut>;

    fn bitand(self, rhs: Cons<H2, T2>) -> (out: Cons<HOut, TOut>) {
        Cons(self.0 & rhs.0, self.1 & rhs.1)
    }
}

impl<H1, H2, HOut, T1, T2, TOut> BitAndSpecImpl<Cons<H2, T2>> for Cons<H1, T1> where
    H1: BitAnd<H2, Output = HOut>,
    T1: BitAnd<T2, Output = TOut>,
 {
    open spec fn obeys_bitand_spec() -> bool {
        H1::obeys_bitand_spec() && T1::obeys_bitand_spec()
    }

    open spec fn bitand_req(self, rhs: Cons<H2, T2>) -> bool {
        self.0.bitand_req(rhs.0) && self.1.bitand_req(rhs.1)
    }

    open spec fn bitand_spec(self, rhs: Cons<H2, T2>) -> Cons<HOut, TOut> {
        Cons(self.0.bitand_spec(rhs.0), self.1.bitand_spec(rhs.1))
    }
}

impl BitOr<Nil> for Nil {
    type Output = Nil;

    fn bitor(self, rhs: Nil) -> (out: Nil) {
        Nil
    }
}

impl BitOrSpecImpl<Nil> for Nil {
    open spec fn obeys_bitor_spec() -> bool {
        true
    }

    open spec fn bitor_req(self, rhs: Nil) -> bool {
        true
    }

    open spec fn bitor_spec(self, rhs: Nil) -> Nil {
        Nil
    }
}

/// The disjunction of two lists is the list of the disjunctions of their heads and of
/// their rests.
impl<H1, H2, HOut, T1, T2, TOut> BitOr<Cons<H2, T2>> for Cons<H1, T1> where
    H1: BitOr<H2, Output = HOut>,
    T1: BitOr<T2, Output = TOut>,
 {
    type Output = Cons<HOut, TOut>;

    fn bitor(self, rhs: Cons<H2, T2>) -> (out: Cons<HOut, TOut>) {
        Cons(self.0 | rhs.0, self.1 | rhs.1)
    }
}

impl<H1, H2, HOut, T1, T2, TOut> BitOrSpecImpl<Cons<H2, T2>> for Cons<H1, T1> where
    H1: BitOr<H2, Output = HOut>,
    T1: BitOr<T2, Output = TOut>,
 {
    open spec fn obeys_bitor_spec() -> bool {
        H1::obeys_bitor_spec() && T1::obeys_bitor_spec()
    }

    open spec fn bitor_req(self, rhs: Cons<H2, T2>) -> bool {
        self.0.bitor_req(rhs.0) && self.1.bitor_req(rhs.1)
    }

    open spec fn bitor_spec(self, rhs: Cons<H2, T2>) -> Cons<HOut, TOut> {
        Cons(self.0.bitor_spec(rhs.0), self.1.bitor_spec(rhs.1))
    }
}

impl BitXor<Nil> for Nil {
    type Output = Nil;

    fn bitxor(self, rhs: Nil) -> (out: Nil) {
        Nil
    }
}

impl BitXorSpecImpl<Nil> for Nil {
    open spec fn obeys_bitxor_spec() -> bool {
        true
    }

    open spec fn bitxor_req(self, rhs: Nil) -> bool {
        true
    }

    open spec fn bitxor_spec(self, rhs: Nil) -> Nil {
        Nil
    }
}

/// The exclusive disjunction of two lists is the list of the exclusive
/// disjunctions of their heads and of their rests.
impl<H1, H2, HOut, T1, T2, TOut> BitXor<Cons<H2, T2>> for Cons<H1, T1> where
    H1: BitXor<H2, Output = HOut>,
    T1: BitXor<T2, Output = TOut>,
 {
    type Output = Cons<HOut, TOut>;

    fn bitxor(self, rhs: Cons<H2, T2>) -> (out: Cons<HOut, TOut>) {
        Cons(self.0 ^ rhs.0, self.1 ^ rhs.1)
    }
}

impl<H1, H2, HOut, T1, T2, TOut> BitXorSpecImpl<Cons<H2, T2>> for Cons<H1, T1> where
    H1: BitXor<H2, Output = HOut>,
    T1: BitXor<T2, Output = TOut>,
 {
    open spec fn obeys_bitxor_spec() -> bool {
        H1::obeys_bitxor_spec() && T1::obeys_bitxor_spec()
    }

    open spec fn bitxor_req(self, rhs: Cons<H2, T2>) -> bool {
        self.0.bitxor_req(rhs.0) && self.1.bitxor_req(rhs.1)
    }

    open spec fn bitxor_spec(self, rhs: Cons<H2, T2>) -> Cons<HOut, TOut> {
        Cons(self.0.bitxor_spec(rhs.0), self.1.bitxor_spec(rhs.1))
    }
}

impl Shl<Nil> for Nil {
    type Output = Nil;

    fn shl(self, rhs: Nil) -> (out: Nil) {
        Nil
    }
}

impl ShlSpecImpl<Nil> for Nil {
    open spec fn obeys_shl_spec() -> bool {
        true
    }

    open spec fn shl_req(self, rhs: Nil) -> bool {
        true
    }

    open spec fn shl_spec(self, rhs: Nil) -> Nil {
        Nil
    }
}

/// The left shift of two lists is the list of the left shifts of their heads and of
/// their rests.
impl<H1, H2, HOut, T1, T2, TOut> Shl<Cons<H2, T2>> for Cons<H1, T1> where
    H1: Shl<H2, Output = HOut>,
    T1: Shl<T2, Output = TOut>,
 {
    type Output = Cons<HOut, TOut>;

    fn shl(self, rhs: Cons<H2, T2>) -> (out: Cons<HOut, TOut>) {
        Cons(self.0 << rhs.0, self.1 << rhs.1)
    }
}

impl<H1, H2, HOut, T1, T2, TOut> ShlSpecImpl<Cons<H2, T2>> for Cons<H1, T1> where
    H1: Shl<H2, Output = HOut>,
    T1: Shl<T2, Output = TOut>,
 {
    open spec fn obeys_shl_spec() -> bool {
        H1::obeys_shl_spec() && T1::obeys_shl_spec()
    }

    open spec fn shl_req(self, rhs: Cons<H2, T2>) -> bool {
        self.0.shl_req(rhs.0) && self.1.shl_req(rhs.1)
    }

    open spec fn shl_spec(self, rhs: Cons<H2, T2>) -> Cons<HOut, TOut> {
        Cons(self.0.shl_spec(rhs.0), self.1.shl_spec(rhs.1))
    }
}

impl Shr<Nil> for Nil {
    type Output = Nil;

    fn shr(self, rhs: Nil) -> (out: Nil) {
        Nil
    }
}

impl ShrSpecImpl<Nil> for Nil {
    open spec fn obeys_shr_spec() -> bool {
        true
    }

    open spec fn shr_req(self, rhs: Nil) -> bool {
        true
    }

    open spec fn shr_spec(self, rhs: Nil) -> Nil {
        Nil
    }
}

/// The right shift of two lists is the list of the right shifts of their heads and of
/// their rests.
impl<H1, H2, HOut, T1, T2, TOut> Shr<Cons<H2, T2>> for Cons<H1, T1> where
    H1: Shr<H2, Output = HOut>,
    T1: Shr<T2, Output = TOut>,
 {
    type Output = Cons<HOut, TOut>;

    fn shr(self, rhs: Cons<H2, T2>) -> (out: Cons<HOut, TOut>) {
        Cons(self.0 >> rhs.0, self.1 >> rhs.1)
    }
}

impl<H1, H2, HOut, T1, T2, TOut> ShrSpecImpl<Cons<H2, T2>> for Cons<H1, T1> where
    H1: Shr<H2, Output = HOut>,
    T1: Shr<T2, Output = TOut>,
 {
    open spec fn obeys_shr_spec() -> bool {
        H1::obeys_shr_spec() && T1::obeys_shr_spec()
    }

    open spec fn shr_req(self, rhs: Cons<H2, T2>) -> bool {
        self.0.shr_req(rhs.0) && self.1.shr_req(rhs.1)
    }

    open spec fn shr_spec(self, rhs: Cons<H2, T2>) -> Cons<HOut, TOut> {
        Cons(self.0.shr_spec(rhs.0), self.1.shr_spec(rhs.1))
    }
}

impl Neg for Nil {
    type Output = Nil;

    fn neg(self) -> (out: Nil) {
        Nil
    }
}

impl NegSpecImpl for Nil {
    open spec fn obeys_neg_spec() -> bool {
        true
    }

    open spec fn neg_req(self) -> bool {
        true
    }

    open spec fn neg_spec(self) -> Nil {
        Nil
    }
}

/// The negation of a list is the list of the negations of its head and of its
/// rest.
impl<H, HOut, T, TOut> Neg for Cons<H, T> where
    H: Neg<Output = HOut>,
    T: Neg<Output = TOut>,
 {
    type Output = Cons<HOut, TOut>;

    fn neg(self) -> (out: Cons<HOut, TOut>) {
        Cons(self.0.neg(), self.1.neg())
    }
}

impl<H, HOut, T, TOut> NegSpecImpl for Cons<H, T> where
    H: Neg<Output = HOut>,
    T: Neg<Output = TOut>,
 {
    open spec fn obeys_neg_spec() -> bool {
        H::obeys_neg_spec() && T::obeys_neg_spec()
    }

    open spec fn neg_req(self) -> bool {
        self.0.neg_req() && self.1.neg_req()
    }

    open spec fn neg_spec(self) -> Cons<HOut, TOut> {
        Cons(self.0.neg_spec(), self.1.neg_spec())
    }
}

impl Not for Nil {
    type Output = Nil;

    fn not(self) -> (out: Nil) {
        Nil
    }
}

impl NotSpecImpl for Nil {
    open spec fn obeys_not_spec() -> bool {
        true
    }

    open spec fn not_req(self) -> bool {
        true
    }

    open spec fn not_spec(self) -> Nil {
        Nil
    }
}

/// The complement of a list is the list of the complements of its head and of its
/// rest.
impl<H, HOut, T, TOut> Not for Cons<H, T> where
    H: Not<Output = HOut>,
    T: Not<Output = TOut>,
 {
    type Output = Cons<HOut, TOut>;

    fn not(self) -> (out: Cons<HOut, TOut>) {
        Cons(self.0.not(), self.1.not())
    }
}

impl<H, HOut, T, TOut> NotSpecImpl for Cons<H, T> where
    H: Not<Output = HOut>,
    T: Not<Output = TOut>,
 {
    open spec fn obeys_not_spec() -> bool {
        H::obeys_not_spec() && T::obeys_not_spec()
    }

    open spec fn not_req(self) -> bool {
        self.0.not_req() && self.1.not_req()
    }

    open spec fn not_spec(self) -> Cons<HOut, TOut> {
        Cons(self.0.not_spec(), self.1.not_spec())
    }
}

} // verus!
