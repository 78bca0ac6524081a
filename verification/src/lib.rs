//! A type-state builder for [`Person`].
//!
//! A [`PersonBuilder`] carries, in its type, one boolean per field that may be
//! given at most once. Each setter of such a field exists only on the builders
//! whose boolean for that field is `false` and returns a builder whose boolean
//! is `true`; `build` exists only where both required booleans are `true`.
//! The contracts say what each operation does to the mathematical model of the
//! builder ([`BuilderModel`]), and the laws in [`laws`] are proved over that
//! model.

pub mod model;
pub mod person;
pub mod builder;
pub mod laws;

pub use crate::builder::PersonBuilder;
pub use crate::model::{friend_steps, friends_of, BuilderModel, PersonModel, Step};
pub use crate::person::Person;
