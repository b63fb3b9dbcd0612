//! Executable closures and the mathematical functions they compute.

use vstd::prelude::*;

verus! {

/// Whatever `f` returns on an argument `x` is `g(x)`.
///
/// A closure's contract may allow several results for one argument; where
/// this predicate holds it allows one at most, the one that `g` gives. It is
/// how the contracts of the combinators say that a call with `f` computes
/// what the same operation on the mathematical values computes with `g`.
pub open spec fn computes<F, A, B>(f: F, g: spec_fn(A) -> B) -> bool where F: FnOnce(A) -> B {
    forall|x: A, y: B| #[trigger] f.ensures((x,), y) ==> y == g(x)
}

} // verus!
