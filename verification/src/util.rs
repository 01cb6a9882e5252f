//! Common and useful utility traits.
use vstd::prelude::*;

use crate::marked::{Marked, NonNullable};

verus! {

/// A trait for adding an unwrapping method without a run-time check to
/// [`Option`] like types.
pub trait UnwrapUnchecked: Sized {
    /// The contained type that will be unwrapped.
    type Item: Sized;

    /// `self` contains an item.
    spec fn has_item(&self) -> bool;

    /// The item that `self` contains.
    spec fn item(&self) -> Self::Item;

    /// Unwraps the contained item **without** checking if the value actually
    /// exists; the caller has to ensure `self` actually contains an item.
    fn unwrap_unchecked(self) -> (item: Self::Item)
        requires
            self.has_item(),
        ensures
            item == self.item(),
    ;
}

impl<T> UnwrapUnchecked for Option<T> {
    type Item = T;

    open spec fn has_item(&self) -> bool {
        *self is Some
    }

    open spec fn item(&self) -> T {
        match *self {
            Some(value) => value,
            None => arbitrary(),
        }
    }

    fn unwrap_unchecked(self) -> (item: T) {
        match self {
            Some(value) => value,
            None => unreached(),
        }
    }
}

impl<T, E> UnwrapUnchecked for Result<T, E> {
    type Item = T;

    open spec fn has_item(&self) -> bool {
        *self is Ok
    }

    open spec fn item(&self) -> T {
        match *self {
            Ok(value) => value,
            Err(_) => arbitrary(),
        }
    }

    fn unwrap_unchecked(self) -> (item: T) {
        match self {
            Ok(value) => value,
            Err(_) => unreached(),
        }
    }
}

impl<T: NonNullable> UnwrapUnchecked for Marked<T> {
    type Item = T;

    open spec fn has_item(&self) -> bool {
        *self is Value
    }

    open spec fn item(&self) -> T {
        match *self {
            Marked::Value(value) => value,
            Marked::Null(_) => arbitrary(),
        }
    }

    fn unwrap_unchecked(self) -> (item: T) {
        match self {
            Marked::Value(value) => value,
            Marked::Null(_) => unreached(),
        }
    }
}

} // verus!
