use vstd::prelude::*;
use std::sync::Arc;
use appstream::Collection;
use crate::assoc::AssocList;
use crate::source::{RefIdentity, RefIdentityView};

verus! {

/// Another handle to the same shared collection, by `Arc::clone`.
///
/// Not proved: that the new handle points to the value that `shared` does.
#[verifier::external_body]
pub(crate) fn share(shared: &Arc<Collection>) -> (handle: Arc<Collection>)
    ensures
        handle == *shared,
{
    Arc::clone(shared)
}

/// The collection behind a shared handle.
pub open spec fn behind(shared: Arc<Collection>) -> Collection {
    *shared
}

/// Parsed metadata collections, by the identity of the installed application
/// that each describes. Nothing is ever evicted.
#[derive(Debug)]
pub struct AppstreamCache {
    entries: AssocList<RefIdentity, Arc<Collection>>,
}

impl View for AppstreamCache {
    type V = Map<RefIdentityView, Collection>;

    closed spec fn view(&self) -> Map<RefIdentityView, Collection> {
        self.entries@.map_values(|shared: Arc<Collection>| behind(shared))
    }
}

impl Default for AppstreamCache {
    fn default() -> (cache: AppstreamCache)
        ensures
            cache@ == Map::<RefIdentityView, Collection>::empty(),
    {
        AppstreamCache::new()
    }
}

impl AppstreamCache {
    /// A cache that holds nothing.
    pub fn new() -> (cache: AppstreamCache)
        ensures
            cache@ == Map::<RefIdentityView, Collection>::empty(),
    {
        let cache = AppstreamCache { entries: AssocList::new() };
        proof {
            assert(cache@ =~= Map::<RefIdentityView, Collection>::empty());
        }
        cache
    }

    /// The collection cached for `identity`, if there is one.
    pub fn get(&self, identity: &RefIdentity) -> (found: Option<Arc<Collection>>)
        ensures
            found.is_some() == self@.contains_key(identity@),
            found matches Some(collection) ==> *collection == self@[identity@],
    {
        match self.entries.get(identity) {
            Some(shared) => Some(share(shared)),
            None => None,
        }
    }

    /// Caches `collection` for `identity`, in place of what was cached for it
    /// before.
    pub fn insert(&mut self, identity: RefIdentity, collection: Arc<Collection>)
        ensures
            final(self)@ == old(self)@.insert(identity@, *collection),
    {
        let ghost inserted = (identity@, behind(collection));
        self.entries.insert(identity, collection);
        proof {
            assert(self@ =~= old(self)@.insert(inserted.0, inserted.1));
        }
    }

    /// The number of identities for which a collection is cached.
    pub fn len(&self) -> (n: usize)
        ensures
            self@.dom().finite(),
            n == self@.dom().len(),
    {
        proof {
            assert(self@.dom() =~= self.entries@.dom());
        }
        self.entries.len()
    }
}

} // verus!
