//! Marker traits for compile-time behaviour selection.

use vstd::prelude::*;

verus! {

/// Marker for backends that handle their own path resolution: a wrapper
/// that sees this marker passes paths through unchanged instead of
/// resolving them component by component.  Backends that store symlinks
/// as data must not implement it.
pub trait SelfResolving {

}

} // verus!
