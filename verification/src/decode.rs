use vstd::prelude::*;
use appstream::xmltree::Element;
use appstream::Collection;
use crate::error::{BackendError, Failure};
use crate::source::BlobLoad;

verus! {

/// A parsed markup tree: `xmltree::Element`, whose inside the library never
/// reads.
#[verifier::external_type_specification]
#[verifier::external_body]
pub struct ExElement(appstream::xmltree::Element);

/// The error of the markup parser, `xmltree::ParseError`.
#[verifier::external_type_specification]
#[verifier::external_body]
pub struct ExMarkupError(appstream::xmltree::ParseError);

/// A parsed metadata collection: `appstream::Collection`, whose inside the
/// library never reads.
#[verifier::external_type_specification]
#[verifier::external_body]
pub struct ExCollection(appstream::Collection);

/// The error of the conversion from a markup tree to a collection,
/// `appstream::ParseError`.
#[verifier::external_type_specification]
#[verifier::external_body]
pub struct ExConversionError(appstream::ParseError);

/// The error of a reader, `std::io::Error`.
#[verifier::external_type_specification]
#[verifier::external_body]
pub struct ExReadError(std::io::Error);

/// What `flate2`'s gzip decoder reads out of `blob`: the decompressed bytes of
/// its first gzip member, or `None` where the decoder reports an error.
pub uninterp spec fn gunzip_result(blob: Seq<u8>) -> Option<Seq<u8>>;

/// Reads `blob` to its end through `flate2::read::GzDecoder`.
///
/// Not proved: that the outcome is the one that [`gunzip_result`] names for
/// these bytes. The decoder works on an in-memory slice, so what it returns
/// depends on the bytes alone.
#[verifier::external_body]
fn gunzip(blob: &Vec<u8>) -> (outcome: Result<Vec<u8>, std::io::Error>)
    ensures
        match outcome {
            Ok(bytes) => gunzip_result(blob@) == Some(bytes@),
            Err(_) => gunzip_result(blob@).is_none(),
        },
{
    let mut bytes = Vec::new();
    let mut decoder = flate2::read::GzDecoder::new(blob.as_slice());
    match std::io::Read::read_to_end(&mut decoder, &mut bytes) {
        Ok(_) => Ok(bytes),
        Err(e) => Err(e),
    }
}

/// The outcome of decompression, with a failure classified.
pub fn classify_decompression(outcome: Result<Vec<u8>, std::io::Error>) -> (classified: Result<
    Vec<u8>,
    Failure<std::io::Error>,
>)
    ensures
        classified == match outcome {
            Ok(bytes) => Ok::<Vec<u8>, Failure<std::io::Error>>(bytes),
            Err(e) => Err((Failure { kind: BackendError::DecompressionFailed, cause: e })),
        },
{
    match outcome {
        Ok(bytes) => Ok(bytes),
        Err(e) => Err(Failure { kind: BackendError::DecompressionFailed, cause: e }),
    }
}

/// The outcome of parsing the decompressed markup, with a failure classified.
pub fn classify_markup(outcome: Result<Element, appstream::xmltree::ParseError>) -> (classified:
    Result<Element, Failure<appstream::xmltree::ParseError>>)
    ensures
        classified == match outcome {
            Ok(tree) => Ok::<Element, Failure<appstream::xmltree::ParseError>>(tree),
            Err(e) => Err((Failure { kind: BackendError::MetadataParseFailed, cause: e })),
        },
{
    match outcome {
        Ok(tree) => Ok(tree),
        Err(e) => Err(Failure { kind: BackendError::MetadataParseFailed, cause: e }),
    }
}

/// The outcome of converting a markup tree to a collection, with a failure
/// classified.
pub fn classify_conversion(outcome: Result<Collection, appstream::ParseError>) -> (classified:
    Result<Collection, Failure<appstream::ParseError>>)
    ensures
        classified == match outcome {
            Ok(collection) => Ok::<Collection, Failure<appstream::ParseError>>(collection),
            Err(e) => Err((Failure { kind: BackendError::MetadataConversionFailed, cause: e })),
        },
{
    match outcome {
        Ok(collection) => Ok(collection),
        Err(e) => Err(Failure { kind: BackendError::MetadataConversionFailed, cause: e }),
    }
}

/// What decompressing a gzip-framed blob gives: the decompressed bytes, or
/// the error of a blob that is not valid gzip data.
pub open spec fn markup_of_blob(blob: Seq<u8>) -> Result<Seq<u8>, BackendError> {
    match gunzip_result(blob) {
        Some(markup) => Ok(markup),
        None => Err(BackendError::DecompressionFailed),
    }
}

/// What a load of a metadata blob comes to: the error that the load itself
/// ended in, or what decompressing the blob gives.
pub open spec fn markup_of_load(loaded: BlobLoad) -> Result<Seq<u8>, BackendError> {
    match loaded {
        BlobLoad::InstallationUnavailable => Err(BackendError::InstallationUnavailable),
        BlobLoad::RefNotFound => Err(BackendError::RefNotFound),
        BlobLoad::MetadataUnavailable => Err(BackendError::MetadataUnavailable),
        BlobLoad::Blob(blob) => markup_of_blob(blob@),
    }
}

/// The bytes of an outcome, or what failed.
pub open spec fn bytes_of<E>(outcome: Result<Vec<u8>, Failure<E>>) -> Result<
    Seq<u8>,
    BackendError,
> {
    match outcome {
        Ok(bytes) => Ok(bytes@),
        Err(failure) => Err(failure.kind),
    }
}

/// A load without a blob fails as metadata that is unavailable, and a blob
/// that is not valid gzip data fails at decompression: never with markup to
/// parse.
pub proof fn lemma_no_markup_without_a_valid_blob(blob: Seq<u8>)
    ensures
        markup_of_load(BlobLoad::MetadataUnavailable) == Err::<Seq<u8>, BackendError>(
            BackendError::MetadataUnavailable,
        ),
        gunzip_result(blob).is_none() ==> markup_of_blob(blob) == Err::<Seq<u8>, BackendError>(
            BackendError::DecompressionFailed,
        ),
{
}

/// Decompresses a gzip-framed blob into the markup that it holds. A failure
/// carries the decoder's error.
pub fn decompress_blob(blob: &Vec<u8>) -> (markup: Result<Vec<u8>, Failure<std::io::Error>>)
    ensures
        bytes_of(markup) == markup_of_blob(blob@),
{
    classify_decompression(gunzip(blob))
}

/// Turns the outcome of loading a ref's metadata blob into the markup to
/// parse. A load that failed keeps its own error, without a cause; a blob
/// that was loaded is decompressed, and a failure there carries the decoder's
/// error.
pub fn decompress_load(loaded: &BlobLoad) -> (markup: Result<
    Vec<u8>,
    Failure<Option<std::io::Error>>,
>)
    ensures
        bytes_of(markup) == markup_of_load(*loaded),
        markup matches Err(failure) ==> failure.cause.is_some() == (*loaded is Blob),
{
    match loaded {
        BlobLoad::InstallationUnavailable => Err(
            Failure { kind: BackendError::InstallationUnavailable, cause: None },
        ),
        BlobLoad::RefNotFound => Err(Failure { kind: BackendError::RefNotFound, cause: None }),
        BlobLoad::MetadataUnavailable => Err(
            Failure { kind: BackendError::MetadataUnavailable, cause: None },
        ),
        BlobLoad::Blob(blob) => match decompress_blob(blob) {
            Ok(markup) => Ok(markup),
            Err(failure) => Err(Failure { kind: failure.kind, cause: Some(failure.cause) }),
        },
    }
}

} // verus!
