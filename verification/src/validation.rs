//! The validation type and its combinators.

use crate::function::computes;
use crate::laws::lemma_collect_push;
use crate::non_empty_vec::NonEmptyVec;
use vstd::prelude::*;
use vstd::std_specs::convert::FromSpecImpl;

verus! {

/// The outcome of a check: a value, or every error that was found.
#[derive(Debug, Clone, PartialEq, Eq)]
pub enum Validation<T, E> {
    /// The check passed, with this value.
    Valid(T),
    /// The check failed, with these errors.
    Errs(NonEmptyVec<E>),
}

/// The mathematical value of a [`Validation`]: its errors as a sequence.
#[verifier::ext_equal]
pub enum ValidationView<T, E> {
    /// A success and its value.
    Valid(T),
    /// A failure and its errors in order.
    Errs(Seq<E>),
}

impl<T, E> View for Validation<T, E> {
    type V = ValidationView<T, E>;

    open spec fn view(&self) -> ValidationView<T, E> {
        match *self {
            Validation::Valid(value) => ValidationView::Valid(value),
            Validation::Errs(errors) => ValidationView::Errs(errors@),
        }
    }
}

impl<T, E> ValidationView<T, E> {
    /// A failure holds at least one error.
    pub open spec fn wf(self) -> bool {
        self matches ValidationView::Errs(errors) ==> errors.len() >= 1
    }

    /// The errors held: none for a success.
    pub open spec fn errors(self) -> Seq<E> {
        match self {
            ValidationView::Valid(_) => Seq::empty(),
            ValidationView::Errs(errors) => errors,
        }
    }

    /// The same outcome with `value` in place of the value of a success.
    pub open spec fn with_value<U>(self, value: U) -> ValidationView<U, E> {
        match self {
            ValidationView::Valid(_) => ValidationView::Valid(value),
            ValidationView::Errs(errors) => ValidationView::Errs(errors),
        }
    }

    /// Applies `f` to the value of a success; a failure stays as it is.
    pub open spec fn map<U>(self, f: spec_fn(T) -> U) -> ValidationView<U, E> {
        match self {
            ValidationView::Valid(value) => ValidationView::Valid(f(value)),
            ValidationView::Errs(errors) => ValidationView::Errs(errors),
        }
    }

    /// Applies `f` to each error of a failure, in order; a success stays as
    /// it is.
    pub open spec fn map_err<G>(self, f: spec_fn(E) -> G) -> ValidationView<T, G> {
        match self {
            ValidationView::Valid(value) => ValidationView::Valid(value),
            ValidationView::Errs(errors) => ValidationView::Errs(errors.map_values(f)),
        }
    }

    /// Replaces all the errors of a failure by the one error that `f` makes
    /// of them; a success stays as it is.
    pub open spec fn map_errs<G>(self, f: spec_fn(Seq<E>) -> G) -> ValidationView<T, G> {
        match self {
            ValidationView::Valid(value) => ValidationView::Valid(value),
            ValidationView::Errs(errors) => ValidationView::Errs(seq![f(errors)]),
        }
    }

    /// Applies the function of `f` to the value of `self` where both are
    /// successes. Otherwise the result is a failure with the errors of
    /// `self` followed by those of `f`.
    pub open spec fn ap<U>(self, f: ValidationView<spec_fn(T) -> U, E>) -> ValidationView<U, E> {
        match (self, f) {
            (ValidationView::Valid(value), ValidationView::Valid(g)) => {
                ValidationView::Valid(g(value))
            },
            (ValidationView::Valid(_), ValidationView::Errs(errors)) => {
                ValidationView::Errs(errors)
            },
            (ValidationView::Errs(errors), ValidationView::Valid(_)) => {
                ValidationView::Errs(errors)
            },
            (ValidationView::Errs(errors_1), ValidationView::Errs(errors_2)) => {
                ValidationView::Errs(errors_1 + errors_2)
            },
        }
    }

    /// The two values as a pair where both are successes. Otherwise a failure
    /// with the errors of `self` followed by those of `other`.
    pub open spec fn combine<U>(self, other: ValidationView<U, E>) -> ValidationView<(T, U), E> {
        match (self, other) {
            (ValidationView::Valid(first), ValidationView::Valid(second)) => {
                ValidationView::Valid((first, second))
            },
            _ => ValidationView::Errs(self.errors() + other.errors()),
        }
    }

    /// The two values in order where both are successes. Otherwise a failure
    /// with the errors of `self` followed by those of `other`.
    pub open spec fn merge(self, other: Self) -> ValidationView<Seq<T>, E> {
        match (self, other) {
            (ValidationView::Valid(first), ValidationView::Valid(second)) => {
                ValidationView::Valid(seq![first, second])
            },
            _ => ValidationView::Errs(self.errors() + other.errors()),
        }
    }

    /// The errors of every failure among `items`: those of the first failure
    /// first, each failure's errors in their own order.
    pub open spec fn all_errors(items: Seq<Self>) -> Seq<E> {
        items.map_values(|item: Self| item.errors()).flatten()
    }

    /// The values of `items` in order where all are successes. Otherwise a
    /// failure with the errors of every failure among `items`, in order.
    pub open spec fn collect(items: Seq<Self>) -> ValidationView<Seq<T>, E> {
        if forall|i: int| 0 <= i < items.len() ==> (#[trigger] items[i]) is Valid {
            ValidationView::Valid(items.map_values(|item: Self| item->Valid_0))
        } else {
            ValidationView::Errs(Self::all_errors(items))
        }
    }
}

impl<T, E> Validation<T, E> {
    /// Applies `f` to the value of a success. A failure is handed on
    /// unchanged, and `f` is not called.
    pub fn map<F, U>(self, f: F) -> (r: Validation<U, E>) where F: FnOnce(T) -> U
        requires
            self matches Validation::Valid(value) ==> f.requires((value,)),
        ensures
            (match self {
                Validation::Valid(value) => {
                    r matches Validation::Valid(mapped) && f.ensures((value,), mapped)
                },
                Validation::Errs(errors) => r matches Validation::Errs(kept) && kept == errors,
            }),
            forall|g: spec_fn(T) -> U| computes(f, g) ==> r@ == #[trigger] self@.map(g),
    {
        match self {
            Validation::Valid(value) => Validation::Valid(f(value)),
            Validation::Errs(errors) => Validation::Errs(errors),
        }
    }

    /// Applies `f` to each error of a failure, in order. A success is handed
    /// on unchanged, and `f` is not called.
    pub fn map_err<F, G>(self, f: F) -> (r: Validation<T, G>) where F: FnMut(E) -> G
        requires
            self matches Validation::Errs(errors) ==> forall|i: int|
                0 <= i < errors@.len() ==> f.requires((#[trigger] errors@[i],)),
        ensures
            (match self {
                Validation::Valid(value) => r matches Validation::Valid(kept) && kept == value,
                Validation::Errs(errors) => {
                    &&& r matches Validation::Errs(mapped)
                    &&& mapped@.len() == errors@.len()
                    &&& forall|i: int|
                        0 <= i < errors@.len() ==> f.ensures((errors@[i],), #[trigger] mapped@[i])
                },
            }),
            forall|g: spec_fn(E) -> G| computes(f, g) ==> r@ == #[trigger] self@.map_err(g),
    {
        match self {
            Validation::Valid(value) => Validation::Valid(value),
            Validation::Errs(errors) => Validation::Errs(errors.map(f)),
        }
    }

    /// Hands all the errors of a failure to `f` at once and keeps the one
    /// error that `f` returns. A success is handed on unchanged, and `f` is
    /// not called.
    pub fn map_errs<F, G>(self, f: F) -> (r: Validation<T, G>) where F: FnOnce(NonEmptyVec<E>) -> G
        requires
            self matches Validation::Errs(errors) ==> f.requires((errors,)),
        ensures
            (match self {
                Validation::Valid(value) => r matches Validation::Valid(kept) && kept == value,
                Validation::Errs(errors) => {
                    &&& r matches Validation::Errs(single)
                    &&& single@.len() == 1
                    &&& f.ensures((errors,), single@[0])
                },
            }),
            forall|g: spec_fn(Seq<E>) -> G|
                computes(f, |errors: NonEmptyVec<E>| g(errors@))
                    ==> r@ == #[trigger] self@.map_errs(g),
    {
        match self {
            Validation::Valid(value) => Validation::Valid(value),
            Validation::Errs(errors) => Validation::Errs(NonEmptyVec::of(f(errors))),
        }
    }

    /// Applies the function held by `f` to the value held by `self` where
    /// both are successes. Otherwise the result is a failure with the errors
    /// of `self` followed by those of `f`, and the function is not called.
    pub fn ap<F, U>(self, f: Validation<F, E>) -> (r: Validation<U, E>) where F: FnOnce(T) -> U
        requires
            self matches Validation::Valid(value) ==> (f matches Validation::Valid(g)
                ==> g.requires((value,))),
        ensures
            (match (self, f) {
                (Validation::Valid(value), Validation::Valid(g)) => {
                    r matches Validation::Valid(applied) && g.ensures((value,), applied)
                },
                (Validation::Valid(_), Validation::Errs(errors)) => {
                    r matches Validation::Errs(kept) && kept == errors
                },
                (Validation::Errs(errors), Validation::Valid(_)) => {
                    r matches Validation::Errs(kept) && kept == errors
                },
                (Validation::Errs(errors_1), Validation::Errs(errors_2)) => {
                    r matches Validation::Errs(joined) && joined@ == errors_1@ + errors_2@
                },
            }),
            forall|g: spec_fn(T) -> U|
                (f matches Validation::Valid(h) ==> computes(h, g))
                    ==> r@ == #[trigger] self@.ap(f@.with_value(g)),
    {
        match (self, f) {
            (Validation::Valid(value), Validation::Valid(g)) => Validation::Valid(g(value)),
            (Validation::Valid(_value), Validation::Errs(errors)) => Validation::Errs(errors),
            (Validation::Errs(errors), Validation::Valid(_g)) => Validation::Errs(errors),
            (Validation::Errs(mut errors_1), Validation::Errs(errors_2)) => {
                errors_1.append(errors_2);
                Validation::Errs(errors_1)
            },
        }
    }

    /// Combines two validations without a curried function. Where both are
    /// successes the result holds the pair of their values; otherwise it is
    /// a failure with the errors of `self` followed by those of `other`.
    /// Nested calls gather the errors of all operands from left to right.
    pub fn combine<U>(self, other: Validation<U, E>) -> (r: Validation<(T, U), E>)
        ensures
            r@ == self@.combine(other@),
    {
        match (self, other) {
            (Validation::Valid(first), Validation::Valid(second)) => {
                Validation::Valid((first, second))
            },
            (Validation::Valid(_first), Validation::Errs(errors)) => Validation::Errs(errors),
            (Validation::Errs(errors), Validation::Valid(_second)) => Validation::Errs(errors),
            (Validation::Errs(mut errors_1), Validation::Errs(errors_2)) => {
                errors_1.append(errors_2);
                Validation::Errs(errors_1)
            },
        }
    }

    /// Combines two validations of one type. Where both are successes the
    /// result holds the two values in order; otherwise it is a failure with
    /// the errors of `self` followed by those of `other`.
    pub fn merge(self, other: Validation<T, E>) -> (r: Validation<Vec<T>, E>)
        ensures
            r@.map(|values: Vec<T>| values@) == self@.merge(other@),
    {
        match self.combine(other) {
            Validation::Valid((first, second)) => {
                let mut values = Vec::new();
                values.push(first);
                values.push(second);
                Validation::Valid(values)
            },
            Validation::Errs(errors) => Validation::Errs(errors),
        }
    }
}

impl<A, E> Validation<Vec<A>, E> {
    /// Collects a sequence of validations into one, in a single pass. Where
    /// every item is a success the result holds their values in order (none,
    /// for no items). Otherwise it is a failure with the errors of every
    /// failing item, in the order of the items.
    pub fn from_iter(items: Vec<Validation<A, E>>) -> (r: Self)
        ensures
            r@.map(|values: Vec<A>| values@) == ValidationView::collect(
                items@.map_values(|item: Validation<A, E>| item@),
            ),
    {
        let ghost views = items@.map_values(|item: Validation<A, E>| item@);
        let mut values: Vec<A> = Vec::new();
        let mut errors: Option<NonEmptyVec<E>> = None;
        for item in it: items.into_iter()
            invariant
                it.seq() == items@,
                views == items@.map_values(|item: Validation<A, E>| item@),
                ValidationView::collect(views.take(it.index())) == (match errors {
                    Some(found) => ValidationView::Errs(found@),
                    None => ValidationView::Valid(values@),
                }),
        {
            proof {
                let n = it.index();
                assert(views.take(n + 1) == views.take(n).push(views[n]));
                lemma_collect_push(views.take(n), views[n]);
            }
            match item {
                Validation::Valid(value) => {
                    values.push(value);
                },
                Validation::Errs(found) => {
                    errors = match errors {
                        Some(mut seen) => {
                            seen.append(found);
                            Some(seen)
                        },
                        None => Some(found),
                    };
                },
            }
        }
        assert(views.take(views.len() as int) == views);
        match errors {
            Some(found) => Validation::Errs(found),
            None => Validation::Valid(values),
        }
    }
}

impl<T: Default, E> Default for Validation<T, E> {
    /// A success holding the default value of `T`.
    fn default() -> (r: Self)
        ensures
            r matches Validation::Valid(value) && T::default.ensures((), value),
    {
        Validation::Valid(T::default())
    }
}

impl<T, E> From<Result<T, E>> for Validation<T, E> {
    /// A success for `Ok`, a failure with the one error for `Err`.
    fn from(result: Result<T, E>) -> (r: Self)
        ensures
            r@ == (match result {
                Ok(value) => ValidationView::Valid(value),
                Err(error) => ValidationView::Errs(seq![error]),
            }),
    {
        match result {
            Ok(value) => Validation::Valid(value),
            Err(error) => Validation::Errs(NonEmptyVec::of(error)),
        }
    }
}

impl<T, E> FromSpecImpl<Result<T, E>> for Validation<T, E> {
    /// Two vectors with the same elements need not be the same value, so the
    /// result of `from` is stated through its view and not fixed here.
    open spec fn obeys_from_spec() -> bool {
        false
    }

    open spec fn from_spec(result: Result<T, E>) -> Self {
        arbitrary()
    }
}

} // verus!
