//! Middleware composition for filesystem backends: a layer wraps a
//! backend and hands back a new one.

use vstd::prelude::*;

use crate::traits::Fs;

verus! {

/// A layer that wraps a backend to add functionality, such as caching or
/// quota enforcement.  Applying the layer consumes both the layer's
/// configuration and the backend.
pub trait Layer<B> {
    /// The backend type that wrapping produces.
    type Backend;

    /// Wrap the given backend with this layer's functionality.
    fn layer(self, backend: B) -> Self::Backend;
}

/// Fluent layer composition: `backend.layer(l)` applies `l` to the
/// backend.  Available on every [`Fs`] backend through the blanket
/// implementation.
pub trait LayerExt: Fs + Sized {
    /// Apply a layer to this backend.
    fn layer<L: Layer<Self>>(self, layer: L) -> L::Backend {
        layer.layer(self)
    }
}

impl<B: Fs> LayerExt for B {

}

} // verus!
