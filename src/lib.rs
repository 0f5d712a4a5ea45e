//! Derives conversions between an enum and the payload of each of its
//! single-field variants: the definition is validated variant by variant,
//! every problem is collected into one report, and when there is none the
//! `TryFrom` and `From` impls of each convertible variant are written out.

pub mod diagnostic;
pub mod emit;
pub mod generate;
pub mod laws;
pub mod model;
pub mod tagged;
pub mod validate;

pub use generate::enumorph;

use vstd::prelude::*;
use vstd::std_specs::convert::{IntoSpec, TryIntoSpec};

verus! {

/// Conversions into and out of an enum, with the target type on the method
/// rather than on the trait.
pub trait EnumorphAs: Sized {
    /// Converts `self` into `T` through `Into`.
    fn widen<T>(self) -> (r: T)
        where Self: Into<T>,
        ensures
            Self::obeys_into_spec() ==> r == self.into_spec(),
    {
        self.into()
    }

    /// Converts `self` into `T` through `TryInto`, handing `self` back on failure.
    fn narrow<T>(self) -> (r: Result<T, Self>)
        where Self: TryInto<T, Error = Self>,
        ensures
            Self::obeys_try_into_spec() ==> r == self.try_into_spec(),
    {
        self.try_into()
    }
}

impl<T> EnumorphAs for T {}

/// A type that converts into `T`, and back out of it, failing with the
/// original `T`.
pub trait Enumorph<T>: TryFrom<T, Error = T> + Into<T> {}

impl<T, U> Enumorph<U> for T where T: TryFrom<U, Error = U> + Into<U> {}

} // verus!
