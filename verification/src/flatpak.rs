use vstd::prelude::*;
use std::sync::Arc;
use appstream::Collection;
use crate::backend::{views_of, Backend};
use crate::cache::{share, AppstreamCache};
use crate::error::BackendError;
use crate::package::{Extra, IconRequest, IconRequestView, Package, PackageView, ICON_SIZE};
use crate::source::{
    reported_text, InstalledRef, RefIdentity, RefIdentityView, RefKind, RefListing, RemoteListing,
};

verus! {

/// The key of `extra` under which a package carries its architecture.
pub open spec fn arch_key() -> Seq<char> {
    "arch"@
}

/// The key of `extra` under which a package carries its branch.
pub open spec fn branch_key() -> Seq<char> {
    "branch"@
}

/// Whether an installed ref is listed as a package: it is an application and
/// has a name.
pub open spec fn listed(r: InstalledRef) -> bool {
    r.kind == RefKind::App && r.name.is_some()
}

/// The attributes by which a ref is found again: its architecture and its
/// branch, each where the ref reports a value that is not empty.
pub open spec fn extra_of(r: InstalledRef) -> Map<Seq<char>, Seq<char>> {
    let with_arch = match reported_text(r.arch) {
        Some(arch) => Map::<Seq<char>, Seq<char>>::empty().insert(arch_key(), arch),
        None => Map::<Seq<char>, Seq<char>>::empty(),
    };
    match reported_text(r.branch) {
        Some(branch) => with_arch.insert(branch_key(), branch),
        None => with_arch,
    }
}

/// The characters of `text`, or of `fallback` where there is no text.
pub open spec fn text_or(text: Option<String>, fallback: Seq<char>) -> Seq<char> {
    match text {
        Some(s) => s@,
        None => fallback,
    }
}

/// The package record of a ref that has a name. The name is the id, the icon
/// is named by the id, the display name falls back to the id, and a missing
/// summary or version is empty.
pub open spec fn package_of(r: InstalledRef) -> PackageView
    recommends
        r.name.is_some(),
{
    let id = r.name.unwrap()@;
    PackageView {
        id,
        icon: IconRequestView { name: id, size: ICON_SIZE },
        name: text_or(r.appdata_name, id),
        summary: text_or(r.appdata_summary, Seq::empty()),
        version: text_or(r.appdata_version, Seq::empty()),
        extra: extra_of(r),
    }
}

/// The package records of `refs`: one for each listed ref, in the order of
/// `refs`.
pub open spec fn packages_of(refs: Seq<InstalledRef>) -> Seq<PackageView> {
    refs.filter(|r: InstalledRef| listed(r)).map_values(|r: InstalledRef| package_of(r))
}

/// What a listing of the installed refs comes to: the error that the listing
/// ended in, or the package records of the refs.
pub open spec fn listing_outcome(listing: RefListing) -> Result<Seq<PackageView>, BackendError> {
    match listing {
        RefListing::InstallationUnavailable => Err(BackendError::InstallationUnavailable),
        RefListing::EnumerationFailed => Err(BackendError::RefEnumerationFailed),
        RefListing::Refs(refs) => Ok(packages_of(refs@)),
    }
}

/// The identity of the installed application that a package stands for: its
/// id, with the architecture and the branch that `extra` holds.
pub open spec fn identity_of(p: PackageView) -> RefIdentityView {
    RefIdentityView {
        id: p.id,
        arch: if p.extra.contains_key(arch_key()) {
            Some(p.extra[arch_key()])
        } else {
            None
        },
        branch: if p.extra.contains_key(branch_key()) {
            Some(p.extra[branch_key()])
        } else {
            None
        },
    }
}

/// Adding a ref to the end of a listing adds its package to the end of the
/// packages if the ref is listed, and nothing otherwise. So every listed ref
/// gives exactly one package, in the order of the listing, and a ref of
/// another kind or without a name gives none.
pub proof fn lemma_packages_of_push(refs: Seq<InstalledRef>, r: InstalledRef)
    ensures
        packages_of(refs.push(r)) == if listed(r) {
            packages_of(refs).push(package_of(r))
        } else {
            packages_of(refs)
        },
{
    reveal(Seq::filter);
    let pred = |r: InstalledRef| listed(r);
    assert(refs.push(r).drop_last() =~= refs);
    assert(refs.push(r).filter(pred) == if listed(r) {
        refs.filter(pred).push(r)
    } else {
        refs.filter(pred)
    });
    if listed(r) {
        assert(packages_of(refs.push(r)) =~= packages_of(refs).push(package_of(r)));
    }
}

/// The packages of an empty listing are empty.
pub proof fn lemma_packages_of_empty()
    ensures
        packages_of(Seq::<InstalledRef>::empty()) == Seq::<PackageView>::empty(),
{
    reveal(Seq::filter);
    assert(packages_of(Seq::<InstalledRef>::empty()) =~= Seq::<PackageView>::empty());
}

/// Every package of a listing is the package of one of its refs, and that
/// ref is an application with a name.
pub proof fn lemma_packages_come_from_applications(refs: Seq<InstalledRef>, i: int)
    requires
        0 <= i < packages_of(refs).len(),
    ensures
        exists|j: int|
            0 <= j < refs.len() && (#[trigger] refs[j]).kind == RefKind::App
                && refs[j].name.is_some() && packages_of(refs)[i] == package_of(refs[j]),
    decreases refs.len(),
{
    if refs.len() == 0 {
        lemma_packages_of_empty();
        assert(refs =~= Seq::<InstalledRef>::empty());
    } else {
        let init = refs.drop_last();
        let last = refs.last();
        assert(refs =~= init.push(last));
        lemma_packages_of_push(init, last);
        if i < packages_of(init).len() {
            lemma_packages_come_from_applications(init, i);
            let j = choose|j: int|
                0 <= j < init.len() && (#[trigger] init[j]).kind == RefKind::App
                    && init[j].name.is_some() && packages_of(init)[i] == package_of(init[j]);
            assert(refs[j] == init[j]);
        } else {
            assert(listed(last));
            assert(refs[refs.len() - 1] == last);
        }
    }
}

/// The package of a listed ref has the ref's name as its id, and holds an
/// architecture and a branch exactly where the ref reports a value that is
/// not empty, with the value that the ref reports. It holds no other
/// attribute.
pub proof fn lemma_package_holds_what_ref_reports(r: InstalledRef)
    requires
        listed(r),
    ensures
        package_of(r).id == r.name.unwrap()@,
        package_of(r).extra.contains_key(arch_key()) == reported_text(r.arch).is_some(),
        package_of(r).extra.contains_key(branch_key()) == reported_text(r.branch).is_some(),
        reported_text(r.arch) matches Some(arch) ==> package_of(r).extra[arch_key()] == arch,
        reported_text(r.branch) matches Some(branch) ==> package_of(r).extra[branch_key()]
            == branch,
        forall|key: Seq<char>| #[trigger]
            package_of(r).extra.contains_key(key) ==> key == arch_key() || key == branch_key(),
{
    lemma_keys_differ();
}

/// The package of a listed ref holds an architecture exactly where the ref
/// reports a non-empty one, and a branch exactly where the ref reports a
/// non-empty one.
pub proof fn lemma_extra_present_iff_nonempty(r: InstalledRef)
    requires
        listed(r),
    ensures
        package_of(r).extra.contains_key(arch_key()) <==> (r.arch matches Some(arch)
            && arch@.len() > 0),
        package_of(r).extra.contains_key(branch_key()) <==> (r.branch matches Some(branch)
            && branch@.len() > 0),
{
    lemma_keys_differ();
}

/// The two keys are different strings.
pub proof fn lemma_keys_differ()
    ensures
        arch_key() != branch_key(),
{
    reveal_strlit("arch");
    reveal_strlit("branch");
    assert(arch_key().len() == 4);
    assert(branch_key().len() == 6);
}

/// The identity read back from the package of a listed ref is that of the
/// ref itself: the same id, the same architecture and the same branch, each
/// absent where the ref reports none or an empty one.
pub proof fn lemma_identity_round_trip(r: InstalledRef)
    requires
        listed(r),
    ensures
        identity_of(package_of(r)) == (RefIdentityView {
            id: r.name.unwrap()@,
            arch: reported_text(r.arch),
            branch: reported_text(r.branch),
        }),
{
    lemma_keys_differ();
}

/// The record of one installed ref, or `None` for a ref without a name.
pub fn package_from_ref(r: &InstalledRef) -> (package: Option<Package>)
    ensures
        package.is_some() == r.name.is_some(),
        package matches Some(p) ==> p@ == package_of(*r),
{
    match &r.name {
        None => None,
        Some(id) => {
            let mut extra = Extra::new();
            if let Some(arch) = &r.arch {
                if !arch.as_str().is_empty() {
                    extra.insert("arch".to_owned(), arch.clone());
                }
            }
            if let Some(branch) = &r.branch {
                if !branch.as_str().is_empty() {
                    extra.insert("branch".to_owned(), branch.clone());
                }
            }
            let name = match &r.appdata_name {
                Some(n) => n.clone(),
                None => id.clone(),
            };
            let summary = match &r.appdata_summary {
                Some(s) => s.clone(),
                None => String::new(),
            };
            let version = match &r.appdata_version {
                Some(v) => v.clone(),
                None => String::new(),
            };
            Some(
                Package {
                    id: id.clone(),
                    icon: IconRequest { name: id.clone(), size: ICON_SIZE },
                    name,
                    summary,
                    version,
                    extra,
                },
            )
        },
    }
}

/// The backend for the per-user Flatpak installation. It keeps no handle to
/// the installation: every operation is handed what a freshly opened
/// installation reported.
#[derive(Debug)]
pub struct Flatpak {
    appstream_cache: AppstreamCache,
}

impl Flatpak {
    /// A backend with an empty metadata cache, given what opening the
    /// installation and listing its remotes came to. Where either failed
    /// there is no backend, and the error says which.
    pub fn new(listing: &RemoteListing) -> (result: Result<Flatpak, BackendError>)
        ensures
            match *listing {
                RemoteListing::InstallationUnavailable => result matches Err(e) && e
                    == BackendError::InstallationUnavailable,
                RemoteListing::ListingFailed => result matches Err(e) && e
                    == BackendError::RemoteListingFailed,
                RemoteListing::Listed => result matches Ok(backend) && backend.cache_view()
                    == Map::<RefIdentityView, Collection>::empty(),
            },
    {
        match listing {
            RemoteListing::InstallationUnavailable => Err(BackendError::InstallationUnavailable),
            RemoteListing::ListingFailed => Err(BackendError::RemoteListingFailed),
            RemoteListing::Listed => Ok(Flatpak { appstream_cache: AppstreamCache::new() }),
        }
    }

    /// The identity of the installed application that `package` stands for,
    /// as the installation is asked for it: the id, with the architecture and
    /// the branch where `extra` holds them.
    pub fn identity(package: &Package) -> (identity: RefIdentity)
        ensures
            identity@ == identity_of(package@),
    {
        let arch = match package.extra.get("arch") {
            Some(a) => Some(a.clone()),
            None => None,
        };
        let branch = match package.extra.get("branch") {
            Some(b) => Some(b.clone()),
            None => None,
        };
        RefIdentity { id: package.id.clone(), arch, branch }
    }

    /// The metadata cached for `package`, if any: what is looked at before
    /// the installation is asked.
    pub fn cached(&self, package: &Package) -> (found: Option<Arc<Collection>>)
        ensures
            found.is_some() == self.cache_view().contains_key(identity_of(package@)),
            found matches Some(collection) ==> *collection == self.cache_view()[identity_of(
                package@,
            )],
    {
        let identity = Flatpak::identity(package);
        self.appstream_cache.get(&identity)
    }
}

impl Backend for Flatpak {
    type Listing = RefListing;

    closed spec fn cache_view(&self) -> Map<RefIdentityView, Collection> {
        self.appstream_cache@
    }

    open spec fn installed_outcome(listing: RefListing) -> Result<Seq<PackageView>, BackendError> {
        listing_outcome(listing)
    }

    open spec fn cache_key(package: PackageView) -> RefIdentityView {
        identity_of(package)
    }

    /// A listing that failed gives its error. Otherwise every application ref
    /// with a name gives one package, in the order of the listing; refs of
    /// another kind and refs without a name are passed over.
    fn installed(&self, listing: &RefListing) -> (result: Result<Vec<Package>, BackendError>) {
        match listing {
            RefListing::InstallationUnavailable => Err(BackendError::InstallationUnavailable),
            RefListing::EnumerationFailed => Err(BackendError::RefEnumerationFailed),
            RefListing::Refs(refs) => {
                let mut packages: Vec<Package> = Vec::new();
                let mut i: usize = 0;
                proof {
                    lemma_packages_of_empty();
                    assert(refs@.take(0) =~= Seq::<InstalledRef>::empty());
                    assert(views_of(packages@) =~= Seq::<PackageView>::empty());
                }
                while i < refs.len()
                    invariant
                        i <= refs.len(),
                        views_of(packages@) == packages_of(refs@.take(i as int)),
                    decreases refs.len() - i,
                {
                    let r = &refs[i];
                    proof {
                        lemma_packages_of_push(refs@.take(i as int), refs@[i as int]);
                        assert(refs@.take(i + 1) =~= refs@.take(i as int).push(refs@[i as int]));
                    }
                    match r.kind {
                        RefKind::App => {
                            if let Some(package) = package_from_ref(r) {
                                let ghost before = packages@;
                                packages.push(package);
                                proof {
                                    assert(views_of(packages@) =~= views_of(before).push(
                                        package@,
                                    ));
                                }
                            }
                        },
                        RefKind::Runtime => {},
                    }
                    i = i + 1;
                }
                proof {
                    assert(refs@.take(i as int) =~= refs@);
                }
                Ok(packages)
            },
        }
    }

    fn appstream(&mut self, package: &Package, resolved: Result<Collection, BackendError>) -> (result:
        Result<Arc<Collection>, BackendError>) {
        let identity = Flatpak::identity(package);
        match self.appstream_cache.get(&identity) {
            Some(collection) => Ok(collection),
            None => match resolved {
                Err(e) => Err(e),
                Ok(collection) => {
                    let shared = Arc::new(collection);
                    self.appstream_cache.insert(identity, share(&shared));
                    Ok(shared)
                },
            },
        }
    }

    fn appstream_cache(&self) -> (cache: &AppstreamCache) {
        &self.appstream_cache
    }
}

} // verus!
