//! Miscellaneous utilities.
use vstd::prelude::*;
use core::marker::PhantomData;

pub mod iter;
pub mod proxy;

verus! {

/// A family of types, one for each scope in which a value may be lent out.
///
/// The values that this library hands out are owned, so that what a family
/// comes to is a single type.
pub trait LGType {
    /// The type of the values.
    type Type;
}

/// The family that is `T` in every scope.
pub struct BasicLGType<'scope, T: 'scope>(pub PhantomData<&'scope T>);

impl<'scope, T: 'scope> LGType for BasicLGType<'scope, T> {
    type Type = T;
}

} // verus!
