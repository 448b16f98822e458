//! Heterogeneous lists: a head, then the rest, then [`Nil`].
//!
//! A list is written with its constructors, `Cons(a, Cons(b, Nil))`, and an
//! existing list goes in as the rest of a longer one, `Cons(a, rest)`. The
//! same expressions are its patterns: `let Cons(head, rest) = list` takes a
//! list apart. One construction serves for lists of vectors, of references
//! to vectors and of scalar slices; a list owns what it holds.
//!
//! A list whose head and rest are iterators is an iterator: it steps both at
//! once, as a zip does, and yields the lists of their items.

use vstd::prelude::*;
use vstd::std_specs::iter::{
    DoubleEndedIteratorSpec, DoubleEndedIteratorSpecImpl, IteratorSpec, IteratorSpecImpl,
};
use std::iter::{ExactSizeIterator, FusedIterator};

verus! {

/// The empty list, which ends every list.
#[derive(Debug, Copy, Clone, PartialEq, Eq, PartialOrd, Ord, Hash, Default)]
pub struct Nil;

/// A list cell: the first element and the rest of the list.
#[derive(Debug, Copy, Clone, PartialEq, Eq, PartialOrd, Ord, Hash, Default)]
pub struct Cons<V, Vs>(pub V, pub Vs);

/// The smaller of two lengths.
pub open spec fn shorter(a: nat, b: nat) -> nat {
    if a <= b {
        a
    } else {
        b
    }
}

/// What two sequences give side by side: as many pairs as the shorter has
/// items.
pub open spec fn zipped<A, B>(heads: Seq<A>, tails: Seq<B>) -> Seq<Cons<A, B>> {
    Seq::new(shorter(heads.len(), tails.len()), |i: int| Cons(heads[i], tails[i]))
}

/// The size hint of two iterators stepped together: the smaller of the lower
/// bounds, and the smaller of the upper bounds, where an absent upper bound
/// bounds nothing.
pub open spec fn spec_zip_size_hint(
    head: (usize, Option<usize>),
    tail: (usize, Option<usize>),
) -> (usize, Option<usize>) {
    (
        if head.0 <= tail.0 {
            head.0
        } else {
            tail.0
        },
        match (head.1, tail.1) {
            (Some(x), Some(y)) => Some(
                if x <= y {
                    x
                } else {
                    y
                },
            ),
            (Some(x), None) => Some(x),
            (None, Some(y)) => Some(y),
            (None, None) => None,
        },
    )
}

/// The size hint of two iterators stepped together, from the hint of each.
pub fn zip_size_hint(head: (usize, Option<usize>), tail: (usize, Option<usize>)) -> (hint: (
    usize,
    Option<usize>,
))
    ensures
        hint == spec_zip_size_hint(head, tail),
{
    let (a_lower, a_upper) = head;
    let (b_lower, b_upper) = tail;
    let lower = if a_lower <= b_lower {
        a_lower
    } else {
        b_lower
    };
    let upper = match (a_upper, b_upper) {
        (Some(x), Some(y)) => Some(
            if x <= y {
                x
            } else {
                y
            },
        ),
        (Some(x), None) => Some(x),
        (None, Some(y)) => Some(y),
        (None, None) => None,
    };
    (lower, upper)
}

/// `Iterator::size_hint` of `iter`. Nothing is claimed of the bounds: an
/// iterator is free to report what it likes.
#[verifier::external_body]
fn size_hint_of<I: Iterator>(iter: &I) -> (hint: (usize, Option<usize>)) {
    iter.size_hint()
}

/// Whether `hint` is what `iter` reports as its size hint.
pub closed spec fn size_hint_gives<I: Iterator>(iter: I, hint: (usize, Option<usize>)) -> bool {
    call_ensures(size_hint_of::<I>, (&iter,), hint)
}

/// What Verus is told of a list as an iterator: nothing by way of the
/// iterator laws. What `next` does is stated on `next` itself.
impl<H: Iterator, T: Iterator> IteratorSpecImpl for Cons<H, T> {
    open spec fn obeys_prophetic_iter_laws(&self) -> bool {
        false
    }

    open spec fn remaining(&self) -> Seq<Self::Item> {
        Seq::empty()
    }

    open spec fn will_return_none(&self) -> bool {
        false
    }

    open spec fn decrease(&self) -> Option<nat> {
        None
    }

    open spec fn initial_value_relation(&self, init: &Self) -> bool {
        true
    }

    open spec fn peek(&self, index: int) -> Option<Self::Item> {
        None
    }
}

/// A list whose head and rest are iterators steps both at once, as a zip
/// does, and yields the lists of their items.
impl<H: Iterator, T: Iterator> Iterator for Cons<H, T> {
    type Item = Cons<H::Item, T::Item>;

    /// Steps the head, then the rest, and yields the list of the two items.
    /// Yields nothing as soon as either is at its end; the rest is not
    /// stepped where the head is at its end.
    ///
    /// Of iterators that keep to the iterator laws it yields the pairs of
    /// [`zipped`], one by one.
    fn next(&mut self) -> (item: Option<Cons<H::Item, T::Item>>)
        ensures
            final(self).0.obeys_prophetic_iter_laws() == old(self).0.obeys_prophetic_iter_laws(),
            final(self).1.obeys_prophetic_iter_laws() == old(self).1.obeys_prophetic_iter_laws(),
            old(self).0.obeys_prophetic_iter_laws() && old(self).1.obeys_prophetic_iter_laws() ==> {
                let before = zipped(old(self).0.remaining(), old(self).1.remaining());
                let after = zipped(final(self).0.remaining(), final(self).1.remaining());
                &&& item == (if before.len() > 0 {
                    Some(before[0])
                } else {
                    None
                })
                &&& after == (if before.len() > 0 {
                    before.drop_first()
                } else {
                    before
                })
            },
            exists|head: &mut H, first: Option<H::Item>|
                *head == old(self).0 && *final(head) == final(self).0 && #[trigger] call_ensures(
                    H::next,
                    (head,),
                    first,
                ) && match first {
                    None => item is None && final(self).1 == old(self).1,
                    Some(a) => exists|tail: &mut T, second: Option<T::Item>|
                        *tail == old(self).1 && *final(tail) == final(self).1
                            && #[trigger] call_ensures(T::next, (tail,), second) && item == (
                        match second {
                            None => None,
                            Some(b) => Some(Cons(a, b)),
                        }),
                },
    {
        let first = self.0.next();
        assert(exists|head: &mut H|
            *head == old(self).0 && #[trigger] call_ensures(H::next, (head,), first));
        let head = first?;
        let second = self.1.next();
        assert(exists|tail: &mut T|
            *tail == old(self).1 && #[trigger] call_ensures(T::next, (tail,), second));
        let tail = second?;
        Some(Cons(head, tail))
    }

    /// The size hint of the head and that of the rest, combined as
    /// [`spec_zip_size_hint`] says.
    fn size_hint(&self) -> (hint: (usize, Option<usize>))
        ensures
            exists|head: (usize, Option<usize>), tail: (usize, Option<usize>)|
                #![trigger size_hint_gives(self.0, head), size_hint_gives(self.1, tail)]
                size_hint_gives(self.0, head) && size_hint_gives(self.1, tail) && hint
                    == spec_zip_size_hint(head, tail),
    {
        let head = size_hint_of(&self.0);
        let tail = size_hint_of(&self.1);
        assert(size_hint_gives(self.0, head) && size_hint_gives(self.1, tail));
        zip_size_hint(head, tail)
    }
}

impl<H: DoubleEndedIterator, T: DoubleEndedIterator> DoubleEndedIteratorSpecImpl for Cons<H, T> {
    open spec fn peek_back(&self, index: int) -> Option<Self::Item> {
        None
    }
}

/// A list of iterators that can be stepped from the back can be, too.
impl<H: DoubleEndedIterator, T: DoubleEndedIterator> DoubleEndedIterator for Cons<H, T> {
    /// Steps the head from its back, then the rest from its back, and yields
    /// the list of the two items. Yields nothing as soon as either is at its
    /// end; the rest is not stepped where the head is at its end.
    ///
    /// Of iterators that keep to the iterator laws it yields the last item
    /// of each, whatever their lengths.
    fn next_back(&mut self) -> (item: Option<Cons<H::Item, T::Item>>)
        ensures
            final(self).0.obeys_prophetic_iter_laws() == old(self).0.obeys_prophetic_iter_laws(),
            final(self).1.obeys_prophetic_iter_laws() == old(self).1.obeys_prophetic_iter_laws(),
            old(self).0.obeys_prophetic_iter_laws() && old(self).1.obeys_prophetic_iter_laws() ==> {
                let heads = old(self).0.remaining();
                let tails = old(self).1.remaining();
                &&& item == (if heads.len() > 0 && tails.len() > 0 {
                    Some(Cons(heads.last(), tails.last()))
                } else {
                    None
                })
                &&& final(self).0.remaining() == (if heads.len() > 0 {
                    heads.drop_last()
                } else {
                    heads
                })
                &&& final(self).1.remaining() == (if heads.len() > 0 && tails.len() > 0 {
                    tails.drop_last()
                } else {
                    tails
                })
            },
            exists|head: &mut H, first: Option<H::Item>|
                *head == old(self).0 && *final(head) == final(self).0 && #[trigger] call_ensures(
                    H::next_back,
                    (head,),
                    first,
                ) && match first {
                    None => item is None && final(self).1 == old(self).1,
                    Some(a) => exists|tail: &mut T, second: Option<T::Item>|
                        *tail == old(self).1 && *final(tail) == final(self).1
                            && #[trigger] call_ensures(T::next_back, (tail,), second) && item == (
                        match second {
                            None => None,
                            Some(b) => Some(Cons(a, b)),
                        }),
                },
    {
        let first = self.0.next_back();
        assert(exists|head: &mut H|
            *head == old(self).0 && #[trigger] call_ensures(H::next_back, (head,), first));
        let head = first?;
        let second = self.1.next_back();
        assert(exists|tail: &mut T|
            *tail == old(self).1 && #[trigger] call_ensures(T::next_back, (tail,), second));
        let tail = second?;
        Some(Cons(head, tail))
    }
}

impl<H: FusedIterator, T: FusedIterator> FusedIterator for Cons<H, T> {
}

impl<H: ExactSizeIterator, T: ExactSizeIterator> ExactSizeIterator for Cons<H, T> {
}

} // verus!
