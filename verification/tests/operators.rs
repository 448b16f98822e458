use packed_lanes::{Cons, Nil};

#[test]
fn empty_lists_give_the_empty_list() {
    assert_eq!(Nil + Nil, Nil);
    assert_eq!(Nil - Nil, Nil);
    assert_eq!(Nil * Nil, Nil);
    assert_eq!(Nil / Nil, Nil);
    assert_eq!(Nil % Nil, Nil);
    assert_eq!(Nil & Nil, Nil);
    assert_eq!(Nil | Nil, Nil);
    assert_eq!(Nil ^ Nil, Nil);
    assert_eq!(Nil << Nil, Nil);
    assert_eq!(Nil >> Nil, Nil);
    assert_eq!(-Nil, Nil);
    assert_eq!(!Nil, Nil);
}

#[test]
fn arithmetic_goes_element_by_element() {
    let a = Cons(7u64, Cons(9i32, Nil));
    let b = Cons(2u64, Cons(-4i32, Nil));
    assert_eq!(a + b, Cons(9, Cons(5, Nil)));
    assert_eq!(a - b, Cons(5, Cons(13, Nil)));
    assert_eq!(a * b, Cons(14, Cons(-36, Nil)));
    assert_eq!(a / b, Cons(3, Cons(-2, Nil)));
    assert_eq!(a % b, Cons(1, Cons(1, Nil)));
}

#[test]
fn bit_operators_go_element_by_element() {
    let a = Cons(0b1100u8, Cons(0b1010u16, Nil));
    let b = Cons(0b1010u8, Cons(0b0110u16, Nil));
    assert_eq!(a & b, Cons(0b1000, Cons(0b0010, Nil)));
    assert_eq!(a | b, Cons(0b1110, Cons(0b1110, Nil)));
    assert_eq!(a ^ b, Cons(0b0110, Cons(0b1100, Nil)));
    assert_eq!(a << Cons(1u8, Cons(2u16, Nil)), Cons(0b11000, Cons(0b101000, Nil)));
    assert_eq!(a >> Cons(2u8, Cons(1u16, Nil)), Cons(0b11, Cons(0b101, Nil)));
}

#[test]
fn unary_operators_go_element_by_element() {
    assert_eq!(-Cons(3i32, Cons(-4i64, Nil)), Cons(-3, Cons(4, Nil)));
    assert_eq!(!Cons(true, Cons(0u8, Nil)), Cons(false, Cons(255, Nil)));
}

#[test]
fn operands_may_differ_in_type_from_the_result() {
    let a = Cons(1.5f64, Cons(2.0f32, Nil));
    let b = Cons(0.5f64, Cons(4.0f32, Nil));
    assert_eq!(a + b, Cons(2.0, Cons(6.0, Nil)));
    assert_eq!(a * b, Cons(0.75, Cons(8.0, Nil)));
    let text = Cons(String::from("ab"), Nil) + Cons("cd", Nil);
    assert_eq!(text, Cons(String::from("abcd"), Nil));
}
