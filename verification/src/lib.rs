//! Error-accumulating validation.
//!
//! A [`Validation`] is either a success holding one value or a failure holding
//! a [`NonEmptyVec`] of errors. Combining validations never drops an error:
//! where both operands failed, the errors of the left operand are followed by
//! those of the right.
//!
//! ```
//! use validation::{NonEmptyVec, Validation};
//!
//! let name: Validation<&str, &str> = Validation::Errs(NonEmptyVec::of("no name"));
//! let age: Validation<u8, &str> = Validation::Errs(NonEmptyVec::of("no age"));
//! let person = name.combine(age);
//! let expected = NonEmptyVec { head: "no name", tail: vec!["no age"] };
//! assert!(person == Validation::Errs(expected));
//! ```
//!
//! The contracts speak of a validation through its view, a
//! [`validation::ValidationView`], which holds the errors as a sequence.
//! What holds of the combinators taken together is proved in [`laws`].

pub mod function;
pub mod laws;
pub mod non_empty_vec;
pub mod validation;

pub use non_empty_vec::NonEmptyVec;
pub use validation::Validation;
