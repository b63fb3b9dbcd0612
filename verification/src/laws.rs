//! Laws of the combinators, stated over the mathematical values that their
//! contracts speak of.

use crate::non_empty_vec::NonEmptyVec;
use crate::validation::{Validation, ValidationView};
use vstd::prelude::*;

verus! {

/// A non-empty vector has at least one element, and `head` is the first.
pub proof fn lemma_non_empty<E>(elements: NonEmptyVec<E>)
    ensures
        elements@.len() >= 1,
        elements@[0] == elements.head,
{
}

/// Every validation is well formed: a failure holds at least one error, and
/// only a failure holds any.
pub proof fn lemma_validation_wf<T, E>(v: Validation<T, E>)
    ensures
        v@.wf(),
        v is Errs <==> v@.errors().len() >= 1,
{
}

/// The transforms keep a validation well formed.
pub proof fn lemma_map_wf<T, U, E, G, H>(
    v: ValidationView<T, E>,
    on_value: spec_fn(T) -> U,
    on_error: spec_fn(E) -> G,
    on_errors: spec_fn(Seq<E>) -> H,
)
    requires
        v.wf(),
    ensures
        v.map(on_value).wf(),
        v.map_err(on_error).wf(),
        v.map_errs(on_errors).wf(),
{
}

/// `ap`, `combine` and `merge` keep validations well formed.
pub proof fn lemma_ap_wf<T, U, W, E>(
    a: ValidationView<T, E>,
    f: ValidationView<spec_fn(T) -> U, E>,
    b: ValidationView<W, E>,
    c: ValidationView<T, E>,
)
    requires
        a.wf(),
        f.wf(),
        b.wf(),
        c.wf(),
    ensures
        a.ap(f).wf(),
        a.combine(b).wf(),
        a.merge(c).wf(),
{
}

/// Mapping with the identity gives the validation back.
pub proof fn lemma_map_identity<T, E>(v: ValidationView<T, E>)
    ensures
        v.map(|x: T| x) == v,
{
}

/// Mapping with `f` and then with `g` is mapping once with `g` after `f`.
pub proof fn lemma_map_composition<T, U, W, E>(
    v: ValidationView<T, E>,
    f: spec_fn(T) -> U,
    g: spec_fn(U) -> W,
)
    ensures
        v.map(f).map(g) == v.map(|x: T| g(f(x))),
{
}

/// The errors of `a.ap(f)` are those of `a` followed by those of `f`,
/// whichever of the two failed, and it succeeds only where both did.
pub proof fn lemma_ap_errors<T, U, E>(
    a: ValidationView<T, E>,
    f: ValidationView<spec_fn(T) -> U, E>,
)
    ensures
        a.ap(f).errors() == a.errors() + f.errors(),
        a.ap(f) is Valid <==> a is Valid && f is Valid,
{
}

/// Nested `ap` gathers the errors of all operands from left to right.
pub proof fn lemma_ap_nested_errors<T, U, W, E>(
    a: ValidationView<T, E>,
    b: ValidationView<U, E>,
    f: ValidationView<spec_fn(U) -> spec_fn(T) -> W, E>,
)
    ensures
        a.ap(b.ap(f)).errors() == a.errors() + b.errors() + f.errors(),
{
}

/// `merge` is `ap` with the second operand mapped to the function that
/// puts its value behind the value of the first.
pub proof fn lemma_merge_is_ap<T, E>(a: ValidationView<T, E>, b: ValidationView<T, E>)
    ensures
        a.merge(b) == a.ap(b.map(|second: T| |first: T| seq![first, second])),
{
}

/// `combine` is `ap` with the second operand mapped to the function that
/// pairs its value with the value of the first.
pub proof fn lemma_combine_is_ap<T, U, E>(a: ValidationView<T, E>, b: ValidationView<U, E>)
    ensures
        a.combine(b) == a.ap(b.map(|second: U| |first: T| (first, second))),
{
}

/// Nested `combine` gathers the errors of all operands from left to right,
/// however the calls are nested.
pub proof fn lemma_combine_nested_errors<T, U, W, E>(
    a: ValidationView<T, E>,
    b: ValidationView<U, E>,
    c: ValidationView<W, E>,
)
    ensures
        a.combine(b).combine(c).errors() == a.errors() + b.errors() + c.errors(),
        a.combine(b.combine(c)).errors() == a.errors() + b.errors() + c.errors(),
{
}

/// One more item adds its errors behind those of the items before it.
pub proof fn lemma_all_errors_push<T, E>(
    items: Seq<ValidationView<T, E>>,
    item: ValidationView<T, E>,
)
    ensures
        ValidationView::all_errors(items.push(item)) == ValidationView::all_errors(items)
            + item.errors(),
{
    let errors_of = |item: ValidationView<T, E>| item.errors();
    let before = items.map_values(errors_of);
    assert(items.push(item).map_values(errors_of) == before.push(item.errors()));
    before.lemma_flatten_push(item.errors());
}

/// Where every item is a success, there are no errors to gather.
pub proof fn lemma_all_errors_of_successes<T, E>(items: Seq<ValidationView<T, E>>)
    requires
        forall|i: int| 0 <= i < items.len() ==> (#[trigger] items[i]) is Valid,
    ensures
        ValidationView::all_errors(items) == Seq::<E>::empty(),
    decreases items.len(),
{
    if items.len() > 0 {
        lemma_all_errors_of_successes(items.drop_last());
        lemma_all_errors_push(items.drop_last(), items.last());
        assert(items.drop_last().push(items.last()) == items);
    }
}

/// The errors gathered from `items` hold at least the errors of each item.
pub proof fn lemma_all_errors_len<T, E>(items: Seq<ValidationView<T, E>>, i: int)
    requires
        0 <= i < items.len(),
    ensures
        ValidationView::all_errors(items).len() >= items[i].errors().len(),
    decreases items.len(),
{
    lemma_all_errors_push(items.drop_last(), items.last());
    assert(items.drop_last().push(items.last()) == items);
    if i < items.len() - 1 {
        lemma_all_errors_len(items.drop_last(), i);
    }
}

/// Collecting succeeds exactly where every item is a success. Its errors
/// are those of all items in order, a success adding none, and it keeps
/// validations well formed.
pub proof fn lemma_collect_errors<T, E>(items: Seq<ValidationView<T, E>>)
    requires
        forall|i: int| 0 <= i < items.len() ==> (#[trigger] items[i]).wf(),
    ensures
        ValidationView::collect(items).wf(),
        ValidationView::collect(items).errors() == ValidationView::all_errors(items),
        ValidationView::collect(items) is Valid <==> forall|i: int|
            0 <= i < items.len() ==> (#[trigger] items[i]) is Valid,
{
    if forall|i: int| 0 <= i < items.len() ==> (#[trigger] items[i]) is Valid {
        lemma_all_errors_of_successes(items);
    } else {
        let i = choose|i: int| 0 <= i < items.len() && !((#[trigger] items[i]) is Valid);
        lemma_all_errors_len(items, i);
    }
}

/// Collecting no items is a success with no values.
pub proof fn lemma_collect_empty<T, E>()
    ensures
        ValidationView::<T, E>::collect(Seq::empty()) == ValidationView::<Seq<T>, E>::Valid(
            Seq::empty(),
        ),
{
}

/// Collecting is a fold with `combine`: one more item is combined with what
/// was collected before it, and its value put behind the others.
pub proof fn lemma_collect_push<T, E>(items: Seq<ValidationView<T, E>>, item: ValidationView<T, E>)
    ensures
        ValidationView::collect(items.push(item)) == ValidationView::collect(items).combine(
            item,
        ).map(|pair: (Seq<T>, T)| pair.0.push(pair.1)),
{
    let all = items.push(item);
    lemma_all_errors_push(items, item);
    assert(all[items.len() as int] == item);
    if forall|i: int| 0 <= i < items.len() ==> (#[trigger] items[i]) is Valid {
        lemma_all_errors_of_successes(items);
    } else {
        let i = choose|i: int| 0 <= i < items.len() && !((#[trigger] items[i]) is Valid);
        assert(!(all[i] is Valid));
    }
}

} // verus!
