use vstd::prelude::*;

verus! {

/// The ways in which a backend operation can fail.
#[derive(Clone, Copy, Debug, PartialEq, Eq, Structural)]
pub enum BackendError {
    /// The per-user installation could not be opened.
    InstallationUnavailable,
    /// The configured remotes could not be listed.
    RemoteListingFailed,
    /// The installed refs could not be listed.
    RefEnumerationFailed,
    /// No installed ref matches the identity that was asked for.
    RefNotFound,
    /// The ref has no metadata blob to load.
    MetadataUnavailable,
    /// The metadata blob is not valid gzip data.
    DecompressionFailed,
    /// The decompressed bytes are not well-formed markup.
    MetadataParseFailed,
    /// The markup does not describe a metadata collection.
    MetadataConversionFailed,
}

/// A failure together with the outside error that caused it.
#[derive(Debug)]
pub struct Failure<E> {
    /// What failed.
    pub kind: BackendError,
    /// The error that the decoder, the parser or the conversion reported.
    pub cause: E,
}

impl BackendError {
    /// The text of the message for each error.
    pub open spec fn message_text(self) -> Seq<char> {
        match self {
            BackendError::InstallationUnavailable => "the user installation cannot be opened"@,
            BackendError::RemoteListingFailed => "the remotes cannot be listed"@,
            BackendError::RefEnumerationFailed => "the installed refs cannot be listed"@,
            BackendError::RefNotFound => "no such installed ref"@,
            BackendError::MetadataUnavailable => "the ref has no metadata"@,
            BackendError::DecompressionFailed => "the metadata is not valid gzip data"@,
            BackendError::MetadataParseFailed => "the metadata is not well-formed markup"@,
            BackendError::MetadataConversionFailed => "the markup is not a metadata collection"@,
        }
    }

    /// A short human-readable message.
    pub fn message(&self) -> (text: String)
        ensures
            text@ == self.message_text(),
    {
        match self {
            BackendError::InstallationUnavailable => "the user installation cannot be opened".to_owned(),
            BackendError::RemoteListingFailed => "the remotes cannot be listed".to_owned(),
            BackendError::RefEnumerationFailed => "the installed refs cannot be listed".to_owned(),
            BackendError::RefNotFound => "no such installed ref".to_owned(),
            BackendError::MetadataUnavailable => "the ref has no metadata".to_owned(),
            BackendError::DecompressionFailed => "the metadata is not valid gzip data".to_owned(),
            BackendError::MetadataParseFailed => "the metadata is not well-formed markup".to_owned(),
            BackendError::MetadataConversionFailed => "the markup is not a metadata collection".to_owned(),
        }
    }
}

} // verus!
