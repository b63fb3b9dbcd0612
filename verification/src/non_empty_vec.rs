//! A vector that always holds at least one element.

use crate::function::computes;
use vstd::prelude::*;
use vstd::std_specs::convert::FromSpecImpl;

verus! {

/// An ordered collection of one or more elements: `head` comes first, the
/// elements of `tail` follow in order.
#[derive(Debug, Clone, PartialEq, Eq)]
pub struct NonEmptyVec<E> {
    /// The first element.
    pub head: E,
    /// The elements after the first.
    pub tail: Vec<E>,
}

impl<E> View for NonEmptyVec<E> {
    type V = Seq<E>;

    /// All elements in order, `head` first.
    open spec fn view(&self) -> Seq<E> {
        seq![self.head] + self.tail@
    }
}

impl<E> NonEmptyVec<E> {
    /// Wraps a single element.
    pub fn of(element: E) -> (r: Self)
        ensures
            r@ == seq![element],
            r.head == element,
            r.tail@.len() == 0,
    {
        NonEmptyVec { head: element, tail: Vec::new() }
    }

    /// Moves the elements of `other` behind those of `self`, keeping the
    /// order of both.
    pub fn append(&mut self, other: NonEmptyVec<E>)
        ensures
            final(self)@ == old(self)@ + other@,
            final(self).head == old(self).head,
    {
        let NonEmptyVec { head, tail } = other;
        let mut rest = tail;
        self.tail.push(head);
        self.tail.append(&mut rest);
    }

    /// Applies `f` to every element in order.
    pub fn map<F, G>(self, mut f: F) -> (r: NonEmptyVec<G>) where F: FnMut(E) -> G
        requires
            forall|i: int| 0 <= i < self@.len() ==> f.requires((#[trigger] self@[i],)),
        ensures
            r@.len() == self@.len(),
            forall|i: int| 0 <= i < self@.len() ==> f.ensures((self@[i],), #[trigger] r@[i]),
            forall|g: spec_fn(E) -> G| computes(f, g) ==> r@ == #[trigger] self@.map_values(g),
    {
        let NonEmptyVec { head, tail } = self;
        let ghost items = tail@;
        let ghost f0 = f;
        assert(self@[0] == head);
        assert forall|i: int| 0 <= i < items.len() implies f.requires((#[trigger] items[i],)) by {
            assert(self@[i + 1] == items[i]);
        }
        let first = f(head);
        let mut rest: Vec<G> = Vec::new();
        for x in it: tail.into_iter()
            invariant
                it.seq() == items,
                f == f0,
                rest@.len() == it.index(),
                forall|i: int| 0 <= i < items.len() ==> f.requires((#[trigger] items[i],)),
                forall|i: int| 0 <= i < rest@.len() ==> f.ensures((items[i],), #[trigger] rest@[i]),
        {
            rest.push(f(x));
        }
        NonEmptyVec { head: first, tail: rest }
    }
}

impl<E> From<E> for NonEmptyVec<E> {
    /// Wraps a single element, as [`NonEmptyVec::of`] does.
    fn from(element: E) -> (r: Self)
        ensures
            r@ == seq![element],
            r.head == element,
            r.tail@.len() == 0,
    {
        NonEmptyVec::of(element)
    }
}

impl<E> FromSpecImpl<E> for NonEmptyVec<E> {
    /// Two vectors with the same elements need not be the same value, so the
    /// result of `from` is stated through its view and not fixed here.
    open spec fn obeys_from_spec() -> bool {
        false
    }

    open spec fn from_spec(element: E) -> Self {
        arbitrary()
    }
}

} // verus!
