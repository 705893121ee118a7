//! The answer of a pull-based source to one poll.

use vstd::prelude::*;

verus! {

/// What a source answers when it is polled.
#[derive(Clone, Debug, PartialEq, Eq)]
pub enum Polled<T, E> {
    /// The next item, or `None` where the source has ended.
    Ready(Option<T>),
    /// Nothing yet: poll again later.
    NotReady,
    /// The source failed and has ended.
    Failed(E),
}

} // verus!
