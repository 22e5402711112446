//! A worked example of the declaration shapes the generators analyse.
//!
//! `Field` uses one parameter only through the marker wrapper and through an
//! associated-type path, and another directly: the inference must bound `S`,
//! leave `T` unbounded, and demand the capability of `T::Value` through a
//! where-clause predicate — exactly the constraints written here by hand.

use core::marker::PhantomData;
use vstd::prelude::*;

verus! {

/// A trait with an associated type: an instantiation may supply a type that
/// itself lacks the debug capability while its associated type has it.
pub trait Trait {
    type Value;
}

/// A record whose three fields exercise the three inference cases: a
/// parameter tagged through the marker wrapper, an associated-type path, and
/// a direct use inside an ordinary container.
pub struct Field<T: Trait, S> where T::Value: core::fmt::Debug {
    pub values: Vec<PhantomData<T::Value>>,
    pub values2: Vec<T::Value>,
    pub values3: Vec<S>,
}

/// Witnesses at compile time that a type has the debug capability.
pub fn assert_debug<F: core::fmt::Debug>() {
}

} // verus!
