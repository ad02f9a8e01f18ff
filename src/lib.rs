//! Loading configuration structures from environment variables.
//!
//! The library holds the conversions that turn the text of an environment
//! variable into typed field values (scalars and comma separated lists), the
//! reading of a field's `env` annotation, the choice of conversion by the
//! field's declared type, and the emission of the constructor's source text.
use vstd::prelude::*;

pub mod attr;
pub mod dispatch;
pub mod emit;
pub mod laws;
pub mod load;
pub mod number;
pub mod text;
pub mod value;

verus! {

/// A type that can build an instance of itself from the process environment.
pub trait FromEnv: Sized {
    fn from_env() -> Self;
}

} // verus!
