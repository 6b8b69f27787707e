use vstd::prelude::*;
use std::sync::Arc;
use appstream::Collection;
use crate::cache::AppstreamCache;
use crate::error::BackendError;
use crate::package::{Package, PackageView};
use crate::source::RefIdentityView;

verus! {

/// What each of `packages` stands for.
pub open spec fn views_of(packages: Seq<Package>) -> Seq<PackageView> {
    packages.map_values(|p: Package| p@)
}

/// One round of metadata resolution on a cache: the cache afterwards and the
/// collection or error that the caller gets. What is cached for `identity`
/// wins; otherwise a collection that was resolved is cached and returned, and
/// an error is returned with the cache as it was.
pub open spec fn appstream_step(
    cache: Map<RefIdentityView, Collection>,
    identity: RefIdentityView,
    resolved: Result<Collection, BackendError>,
) -> (Map<RefIdentityView, Collection>, Result<Collection, BackendError>) {
    if cache.contains_key(identity) {
        (cache, Ok(cache[identity]))
    } else {
        match resolved {
            Ok(collection) => (cache.insert(identity, collection), Ok(collection)),
            Err(e) => (cache, Err(e)),
        }
    }
}

/// The collection behind a shared handle, or the error.
pub open spec fn unshared(outcome: Result<Arc<Collection>, BackendError>) -> Result<
    Collection,
    BackendError,
> {
    match outcome {
        Ok(shared) => Ok(*shared),
        Err(e) => Err(e),
    }
}

/// After a round of metadata resolution that succeeded, every further round
/// for the same identity gives the same collection and leaves the cache as it
/// is, whatever was resolved outside. And two rounds that start from the same
/// cache with the same resolution give the same result.
pub proof fn lemma_appstream_repeats(
    cache: Map<RefIdentityView, Collection>,
    identity: RefIdentityView,
    first: Result<Collection, BackendError>,
    second: Result<Collection, BackendError>,
)
    ensures
        ({
            let once = appstream_step(cache, identity, first);
            let twice = appstream_step(once.0, identity, second);
            &&& once.1.is_ok() ==> twice == once
            &&& once.1.is_err() ==> once.0 == cache
            &&& first == second ==> twice.1 == once.1
        }),
{
}

/// Where nothing is cached for an identity, a resolution that failed gives
/// its own error, never a collection, and leaves the cache as it was.
pub proof fn lemma_failure_is_passed_on(
    cache: Map<RefIdentityView, Collection>,
    identity: RefIdentityView,
    error: BackendError,
)
    requires
        !cache.contains_key(identity),
    ensures
        appstream_step(cache, identity, Err(error)) == (
            cache,
            Err::<Collection, BackendError>(error),
        ),
{
}

/// A round of metadata resolution changes nothing of what is cached for
/// another identity.
pub proof fn lemma_appstream_keeps_others(
    cache: Map<RefIdentityView, Collection>,
    identity: RefIdentityView,
    resolved: Result<Collection, BackendError>,
    other: RefIdentityView,
)
    requires
        other != identity,
    ensures
        appstream_step(cache, identity, resolved).0.contains_key(other) == cache.contains_key(
            other,
        ),
        cache.contains_key(other) ==> appstream_step(cache, identity, resolved).0[other]
            == cache[other],
{
}

/// What every package source offers: it lists the installed applications,
/// resolves the metadata of one of them through its cache, and shows the
/// cache. A source does not reach outside by itself: it is handed what was
/// reported there.
pub trait Backend {
    /// What the source reports when it is asked for its installed units.
    type Listing;

    /// What the metadata cache holds.
    spec fn cache_view(&self) -> Map<RefIdentityView, Collection>;

    /// What a listing comes to: its error, or the packages of its units.
    spec fn installed_outcome(listing: Self::Listing) -> Result<Seq<PackageView>, BackendError>;

    /// The identity under which the metadata of a package is cached and by
    /// which the installed unit is found again.
    spec fn cache_key(package: PackageView) -> RefIdentityView;

    /// The installed applications, from what the source reported.
    fn installed(&self, listing: &Self::Listing) -> (result: Result<Vec<Package>, BackendError>)
        ensures
            match result {
                Ok(packages) => Self::installed_outcome(*listing) == Ok::<
                    Seq<PackageView>,
                    BackendError,
                >(views_of(packages@)),
                Err(e) => Self::installed_outcome(*listing) == Err::<
                    Seq<PackageView>,
                    BackendError,
                >(e),
            },
    ;

    /// The metadata of `package`, given what resolving it outside came to.
    ///
    /// Metadata that is cached for the package is returned and `resolved` is
    /// not looked at. Otherwise a collection that was resolved is cached and
    /// returned, and an error is returned as it is, with nothing cached.
    fn appstream(&mut self, package: &Package, resolved: Result<Collection, BackendError>) -> (result:
        Result<Arc<Collection>, BackendError>)
        ensures
            (final(self).cache_view(), unshared(result)) == appstream_step(
                old(self).cache_view(),
                Self::cache_key(package@),
                resolved,
            ),
    ;

    /// The metadata cache of this source.
    fn appstream_cache(&self) -> (cache: &AppstreamCache)
        ensures
            cache@ == self.cache_view(),
    ;
}

} // verus!
