use vstd::prelude::*;
use crate::assoc::Key;

verus! {

/// The kind of an installed ref.
#[derive(Clone, Copy, Debug, PartialEq, Eq, Structural)]
pub enum RefKind {
    /// An application.
    App,
    /// A runtime or an extension.
    Runtime,
}

/// What the installation reports of one installed ref. Each attribute is
/// `None` where the installation has no value for it.
#[derive(Clone, Debug)]
pub struct InstalledRef {
    pub kind: RefKind,
    pub name: Option<String>,
    pub arch: Option<String>,
    pub branch: Option<String>,
    pub appdata_name: Option<String>,
    pub appdata_summary: Option<String>,
    pub appdata_version: Option<String>,
}

/// The characters of an optional string.
pub open spec fn text_of(text: Option<String>) -> Option<Seq<char>> {
    match text {
        Some(s) => Some(s@),
        None => None,
    }
}

/// What an attribute reports: its characters, or nothing where the
/// installation has no value for it or has an empty one.
pub open spec fn reported_text(text: Option<String>) -> Option<Seq<char>> {
    match text {
        Some(s) => if s@.len() > 0 {
            Some(s@)
        } else {
            None
        },
        None => None,
    }
}

/// A copy of an optional string.
pub fn copy_text(text: &Option<String>) -> (copy: Option<String>)
    ensures
        text_of(copy) == text_of(*text),
{
    match text {
        Some(s) => Some(s.clone()),
        None => None,
    }
}

/// The outcome of opening the installation and asking it for its remotes.
#[derive(Clone, Copy, Debug, PartialEq, Eq, Structural)]
pub enum RemoteListing {
    /// The installation could not be opened.
    InstallationUnavailable,
    /// The installation was opened, but listing its remotes failed.
    ListingFailed,
    /// The remotes were listed.
    Listed,
}

/// The outcome of asking the installation for its installed application refs.
#[derive(Clone, Debug)]
pub enum RefListing {
    /// The installation could not be opened.
    InstallationUnavailable,
    /// The installation was opened, but listing its refs failed.
    EnumerationFailed,
    /// The refs, in the order in which the installation listed them.
    Refs(Vec<InstalledRef>),
}

/// What identifies one installed application: its id and the architecture and
/// branch that tell it from others of the same id.
#[derive(Clone, Debug)]
pub struct RefIdentity {
    pub id: String,
    pub arch: Option<String>,
    pub branch: Option<String>,
}

/// What a [`RefIdentity`] stands for.
pub struct RefIdentityView {
    pub id: Seq<char>,
    pub arch: Option<Seq<char>>,
    pub branch: Option<Seq<char>>,
}

impl View for RefIdentity {
    type V = RefIdentityView;

    open spec fn view(&self) -> RefIdentityView {
        RefIdentityView { id: self.id@, arch: text_of(self.arch), branch: text_of(self.branch) }
    }
}

/// Whether two optional strings hold the same characters, or both nothing.
pub fn same_text(a: &Option<String>, b: &Option<String>) -> (same: bool)
    ensures
        same == (text_of(*a) == text_of(*b)),
{
    match (a, b) {
        (Some(x), Some(y)) => *x == *y,
        (None, None) => true,
        _ => false,
    }
}

impl Key for RefIdentity {
    /// Whether `self` and `other` name the same installed application.
    fn same(&self, other: &RefIdentity) -> (same: bool) {
        self.id == other.id && same_text(&self.arch, &other.arch) && same_text(
            &self.branch,
            &other.branch,
        )
    }
}

impl RefIdentity {

    /// A copy of this identity.
    pub fn duplicate(&self) -> (copy: RefIdentity)
        ensures
            copy@ == self@,
    {
        RefIdentity {
            id: self.id.clone(),
            arch: copy_text(&self.arch),
            branch: copy_text(&self.branch),
        }
    }
}

/// The outcome of asking the installation for the metadata blob of one ref.
#[derive(Clone, Debug)]
pub enum BlobLoad {
    /// The installation could not be opened.
    InstallationUnavailable,
    /// No installed ref has the identity that was asked for.
    RefNotFound,
    /// The ref was found, but it has no metadata blob.
    MetadataUnavailable,
    /// The blob: gzip-compressed markup.
    Blob(Vec<u8>),
}

} // verus!
