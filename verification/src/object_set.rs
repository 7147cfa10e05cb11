//! Object-set registries.
//!
//! An object set groups GPU objects created together and hands out their raw
//! handles by identifier. The storage behind a set is supplied by its
//! provider; [`ObjectSet`] is the shared, reference-counted front to one
//! provider.

use std::sync::Arc;
use vstd::prelude::*;

verus! {

/// A stable identifier for an object or an object set, distinct from any
/// driver handle.
#[derive(Clone, Copy, Debug, PartialEq, Eq, Structural, Hash)]
pub struct Uuid {
    /// The raw identifier value.
    pub raw: u64,
}

/// Storage backing an object set: it knows the set's own identifier and the
/// raw handle stored for each object identifier.
pub trait ObjectSetProvider {
    /// Returns the identifier of the set itself.
    fn get_id(&self) -> Uuid;

    /// Returns the raw handle stored under `id`, or `None` if the set holds
    /// no such object.
    fn get_handle(&self, id: Uuid) -> Option<u64>;
}

/// A shared handle to an object-set provider.
pub struct ObjectSet<P: ObjectSetProvider>(Arc<P>);

impl<P: ObjectSetProvider> Clone for ObjectSet<P> {
    /// Clones the shared handle; the provider itself is not copied.
    fn clone(&self) -> Self {
        ObjectSet(Arc::clone(&self.0))
    }
}

impl<P: ObjectSetProvider> ObjectSet<P> {
    /// Wraps a provider into a shared object set.
    pub fn new(provider: Arc<P>) -> Self {
        Self(provider)
    }

    /// Returns the provider backing this set.
    pub fn get_provider(&self) -> &Arc<P> {
        &self.0
    }
}

impl<P: ObjectSetProvider> ObjectSetProvider for ObjectSet<P> {
    /// Forwards to the provider's own identifier.
    fn get_id(&self) -> Uuid {
        self.0.get_id()
    }

    /// Forwards a handle lookup to the provider.
    fn get_handle(&self, id: Uuid) -> Option<u64> {
        self.0.get_handle(id)
    }
}

} // verus!
