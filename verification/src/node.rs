//! The node: owner of everything that runs.

use vstd::prelude::*;

verus! {

/// A running node. It owns the handles of its four parts, which live as
/// long as it does and are dropped with it.
pub struct Node<R, C, M, E> {
    /// The task runtime.
    pub runtime: R,
    /// The consensus provider.
    pub consensus: C,
    /// The mempool runtime.
    pub mempool: M,
    /// The executor.
    pub executor: E,
}

} // verus!
