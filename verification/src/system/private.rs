//! Traits that close the sets of storage types and of property names.

use vstd::prelude::*;

verus! {

/// Marks the types that a property can be read as.
pub trait Sealed {

}

/// Marks the names under which a value of type `T` can be asked for.
pub trait SealedProperty<T> {

}

} // verus!
