//! Who is responsible for releasing a resource.

use vstd::prelude::*;

verus! {

/// Whether a wrapper owns the resource it refers to.
///
/// An `Owned` wrapper was created by the embedder and releases the resource
/// when it is destroyed. A `Borrowed` wrapper is a view of a resource that
/// some other owner keeps alive, and destroying it releases nothing.
#[derive(Debug, Clone, Copy, PartialEq, Eq, Structural)]
pub enum Ownership {
    Owned,
    Borrowed,
}

/// Destroying a wrapper releases its resource exactly when it owns it.
pub open spec fn releases_on_destroy(o: Ownership) -> bool {
    o == Ownership::Owned
}

} // verus!
