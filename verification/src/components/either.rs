//! A source that is one of two kinds, so that one bar can hold sources of
//! several kinds.

use crate::status_bar::{Component, ComponentError};
use vstd::prelude::*;

verus! {

/// A source of the first kind or of the second. Nested, it holds any number of
/// kinds.
pub enum Either<A: Component, B: Component> {
    First(A),
    Second(B),
}

impl<A: Component, B: Component> Component for Either<A, B> {
    /// A refresh keeps the kind and is a refresh of the source inside.
    open spec fn refreshes(&self, after: &Self, failure: Option<ComponentError>) -> bool {
        match (*self, *after) {
            (Either::First(before), Either::First(now)) => before.refreshes(&now, failure),
            (Either::Second(before), Either::Second(now)) => before.refreshes(&now, failure),
            _ => false,
        }
    }

    /// A render is a render of the source inside.
    open spec fn renders(&self, text: Option<Seq<char>>) -> bool {
        match *self {
            Either::First(source) => source.renders(text),
            Either::Second(source) => source.renders(text),
        }
    }

    fn tick(&mut self) -> (outcome: Result<(), ComponentError>) {
        match self {
            Either::First(source) => source.tick(),
            Either::Second(source) => source.tick(),
        }
    }

    fn output(&self) -> (text: Result<String, ComponentError>) {
        match self {
            Either::First(source) => source.output(),
            Either::Second(source) => source.output(),
        }
    }
}

} // verus!
