use std::convert::TryFrom;
use std::io::Write;
use std::sync::Arc;

use appstream::xmltree::Element;
use appstream::Collection;
use flatpak_backend::cache::AppstreamCache;
use flatpak_backend::decode::{
    classify_conversion, classify_decompression, classify_markup, decompress_blob, decompress_load,
};
use flatpak_backend::backend::Backend;
use flatpak_backend::error::BackendError;
use flatpak_backend::flatpak::{package_from_ref, Flatpak};
use flatpak_backend::package::Package;
use flatpak_backend::source::{BlobLoad, InstalledRef, RefIdentity, RefKind, RemoteListing};

const COLLECTION: &str = "<?xml version=\"1.0\" encoding=\"UTF-8\"?>\n<components version=\"0.8\" origin=\"flatpak\">\n  <component type=\"desktop\">\n    <id>org.example.Foo</id>\n    <name>Foo</name>\n    <summary>Does foo</summary>\n  </component>\n</components>\n";

fn gzip(bytes: &[u8]) -> Vec<u8> {
    let mut encoder = flate2::write::GzEncoder::new(Vec::new(), flate2::Compression::default());
    encoder.write_all(bytes).unwrap();
    encoder.finish().unwrap()
}

fn new_backend() -> Flatpak {
    Flatpak::new(&RemoteListing::Listed).unwrap()
}

fn decode_blob(blob: &Vec<u8>) -> Result<Element, BackendError> {
    let markup = decompress_blob(blob).map_err(|f| f.kind)?;
    classify_markup(Element::parse(markup.as_slice())).map_err(|f| f.kind)
}

fn resolve(loaded: &BlobLoad) -> Result<Collection, BackendError> {
    let markup = decompress_load(loaded).map_err(|f| f.kind)?;
    let tree = classify_markup(Element::parse(markup.as_slice())).map_err(|f| f.kind)?;
    classify_conversion(Collection::try_from(&tree)).map_err(|f| f.kind)
}

fn package(id: &str, branch: Option<&str>) -> Package {
    let r = InstalledRef {
        kind: RefKind::App,
        name: Some(id.to_string()),
        arch: Some("x86_64".to_string()),
        branch: branch.map(|b| b.to_string()),
        appdata_name: None,
        appdata_summary: None,
        appdata_version: None,
    };
    package_from_ref(&r).unwrap()
}

fn collection(version: &str) -> Collection {
    let markup = format!("<components version=\"{}\"/>", version);
    Collection::try_from(&Element::parse(markup.as_bytes()).unwrap()).unwrap()
}

#[test]
fn a_gzipped_document_decompresses_to_its_bytes() {
    assert_eq!(decompress_blob(&gzip(COLLECTION.as_bytes())).unwrap(), COLLECTION.as_bytes());
    assert_eq!(decompress_blob(&gzip(b"")).unwrap(), Vec::<u8>::new());
    assert_eq!(decompress_blob(&gzip(b"not markup")).unwrap(), b"not markup".to_vec());
}

#[test]
fn only_the_first_gzip_member_is_read() {
    let mut blob = gzip(b"first");
    blob.extend_from_slice(&gzip(b"second"));
    assert_eq!(decompress_blob(&blob).unwrap(), b"first".to_vec());
}

#[test]
fn a_gzipped_document_decodes_to_its_root_element() {
    let tree = decode_blob(&gzip(COLLECTION.as_bytes())).unwrap();
    assert_eq!(tree.name, "components");
    assert_eq!(tree.attributes.get("version"), Some(&"0.8".to_string()));
    assert!(tree.get_child("component").is_some());
}

#[test]
fn bytes_that_are_not_gzip_fail_decompression() {
    assert_eq!(
        decode_blob(&b"this is not gzip data".to_vec()).unwrap_err(),
        BackendError::DecompressionFailed
    );
    assert_eq!(
        decode_blob(&COLLECTION.as_bytes().to_vec()).unwrap_err(),
        BackendError::DecompressionFailed
    );
}

#[test]
fn an_empty_blob_fails_decompression() {
    assert_eq!(decode_blob(&Vec::new()).unwrap_err(), BackendError::DecompressionFailed);
}

#[test]
fn a_truncated_gzip_stream_fails_decompression() {
    let mut blob = gzip(COLLECTION.as_bytes());
    blob.truncate(blob.len() - 6);
    assert_eq!(decode_blob(&blob).unwrap_err(), BackendError::DecompressionFailed);
}

#[test]
fn a_corrupted_checksum_fails_decompression() {
    let mut blob = gzip(COLLECTION.as_bytes());
    let at = blob.len() - 8;
    blob[at] ^= 0xff;
    assert_eq!(decode_blob(&blob).unwrap_err(), BackendError::DecompressionFailed);
}

#[test]
fn gzipped_bytes_that_are_not_markup_fail_parsing() {
    assert_eq!(
        decode_blob(&gzip(b"<components><unclosed></components>")).unwrap_err(),
        BackendError::MetadataParseFailed
    );
    assert_eq!(
        decode_blob(&gzip(b"plain text, no markup")).unwrap_err(),
        BackendError::MetadataParseFailed
    );
    assert_eq!(decode_blob(&gzip(b"")).unwrap_err(), BackendError::MetadataParseFailed);
    assert_eq!(
        decode_blob(&gzip(b"<!-- nothing here -->")).unwrap_err(),
        BackendError::MetadataParseFailed
    );
}

#[test]
fn a_failed_load_keeps_its_error() {
    let unavailable = decompress_load(&BlobLoad::InstallationUnavailable).unwrap_err();
    assert_eq!(unavailable.kind, BackendError::InstallationUnavailable);
    assert!(unavailable.cause.is_none());
    let not_found = decompress_load(&BlobLoad::RefNotFound).unwrap_err();
    assert_eq!(not_found.kind, BackendError::RefNotFound);
    assert!(not_found.cause.is_none());
    let no_metadata = decompress_load(&BlobLoad::MetadataUnavailable).unwrap_err();
    assert_eq!(no_metadata.kind, BackendError::MetadataUnavailable);
    assert!(no_metadata.cause.is_none());
    assert_eq!(resolve(&BlobLoad::MetadataUnavailable).unwrap_err(), BackendError::MetadataUnavailable);
}

#[test]
fn a_loaded_blob_is_decompressed() {
    let markup = decompress_load(&BlobLoad::Blob(gzip(COLLECTION.as_bytes()))).unwrap();
    assert_eq!(markup, COLLECTION.as_bytes());
    let failure = decompress_load(&BlobLoad::Blob(vec![0x1f, 0x8b, 0x00])).unwrap_err();
    assert_eq!(failure.kind, BackendError::DecompressionFailed);
    assert!(failure.cause.is_some());
}

#[test]
fn markup_that_is_no_collection_fails_conversion() {
    assert_eq!(
        resolve(&BlobLoad::Blob(gzip(b"<components/>"))).unwrap_err(),
        BackendError::MetadataConversionFailed
    );
    assert_eq!(
        resolve(&BlobLoad::Blob(gzip(b"<components><unclosed></components>"))).unwrap_err(),
        BackendError::MetadataParseFailed
    );
    assert_eq!(
        resolve(&BlobLoad::Blob(b"<components/>".to_vec())).unwrap_err(),
        BackendError::DecompressionFailed
    );
}

#[test]
fn each_stage_has_its_own_error() {
    let read_error = std::io::Error::new(std::io::ErrorKind::InvalidInput, "corrupt");
    let failure = classify_decompression(Err(read_error)).unwrap_err();
    assert_eq!(failure.kind, BackendError::DecompressionFailed);
    assert_eq!(failure.cause.kind(), std::io::ErrorKind::InvalidInput);
    assert_eq!(failure.cause.to_string(), "corrupt");
    assert_eq!(classify_decompression(Ok(vec![1, 2, 3])).unwrap(), vec![1, 2, 3]);

    let markup_error = Element::parse(&b"<a>"[..]).unwrap_err();
    let text = markup_error.to_string();
    let failure = classify_markup(Err(markup_error)).unwrap_err();
    assert_eq!(failure.kind, BackendError::MetadataParseFailed);
    assert_eq!(failure.cause.to_string(), text);
    let tree = Element::parse(&b"<a/>"[..]).unwrap();
    assert_eq!(classify_markup(Ok(tree)).unwrap().name, "a");

    let no_version = Element::parse(&b"<components/>"[..]).unwrap();
    let failure = classify_conversion(Collection::try_from(&no_version)).unwrap_err();
    assert_eq!(failure.kind, BackendError::MetadataConversionFailed);
    assert!(matches!(failure.cause, appstream::ParseError::MissingAttribute(_, _)));
    assert_eq!(classify_conversion(Ok(collection("0.8"))).unwrap(), collection("0.8"));
}

#[test]
fn a_blob_resolves_to_its_collection() {
    let mut backend = new_backend();
    let p = package("org.example.Foo", Some("stable"));
    let resolved = resolve(&BlobLoad::Blob(gzip(COLLECTION.as_bytes())));
    let found = backend.appstream(&p, resolved).unwrap();
    assert_eq!(found.version, "0.8");
    assert_eq!(found.origin, Some("flatpak".to_string()));
    assert_eq!(found.components.len(), 1);
    assert_eq!(found.components[0].id.0, "org.example.Foo");
}

#[test]
fn a_new_backend_has_nothing_cached() {
    let backend = new_backend();
    assert!(backend.cached(&package("org.example.Foo", Some("stable"))).is_none());
    let identity = Flatpak::identity(&package("org.example.Foo", Some("stable")));
    assert!(backend.appstream_cache().get(&identity).is_none());
}

#[test]
fn resolved_metadata_is_cached_and_returned_again() {
    let mut backend = new_backend();
    let p = package("org.example.Foo", Some("stable"));
    let first = backend.appstream(&p, Ok(collection("0.8"))).unwrap();
    assert_eq!(*first, collection("0.8"));
    let cached = backend.cached(&p).unwrap();
    assert!(Arc::ptr_eq(&first, &cached));
    let second = backend.appstream(&p, Ok(collection("0.14"))).unwrap();
    assert_eq!(*second, collection("0.8"));
    assert!(Arc::ptr_eq(&first, &second));
    let third = backend.appstream(&p, Err(BackendError::MetadataUnavailable)).unwrap();
    assert!(Arc::ptr_eq(&first, &third));
    assert_eq!(backend.appstream_cache().len(), 1);
}

#[test]
fn a_failed_resolution_is_returned_and_not_cached() {
    let mut backend = new_backend();
    let p = package("org.example.Foo", Some("stable"));
    assert_eq!(
        backend.appstream(&p, Err(BackendError::MetadataUnavailable)).unwrap_err(),
        BackendError::MetadataUnavailable
    );
    assert!(backend.cached(&p).is_none());
    assert_eq!(
        backend.appstream(&p, Err(BackendError::RefNotFound)).unwrap_err(),
        BackendError::RefNotFound
    );
    let later = backend.appstream(&p, Ok(collection("0.8"))).unwrap();
    assert_eq!(*later, collection("0.8"));
}

#[test]
fn the_cache_tells_branches_apart() {
    let mut backend = new_backend();
    let stable = package("org.example.Foo", Some("stable"));
    let beta = package("org.example.Foo", Some("beta"));
    let unbranched = package("org.example.Foo", None);
    backend.appstream(&stable, Ok(collection("0.8"))).unwrap();
    assert!(backend.cached(&beta).is_none());
    assert!(backend.cached(&unbranched).is_none());
    let other = backend.appstream(&beta, Ok(collection("0.14"))).unwrap();
    assert_eq!(other.version, "0.14");
    assert_eq!(backend.cached(&stable).unwrap().version, "0.8");
    assert_eq!(backend.cached(&beta).unwrap().version, "0.14");
}

#[test]
fn the_cache_keeps_the_latest_collection_for_an_identity() {
    let mut cache = AppstreamCache::default();
    let identity = RefIdentity {
        id: "org.example.Foo".to_string(),
        arch: Some("x86_64".to_string()),
        branch: None,
    };
    assert!(cache.get(&identity).is_none());
    assert_eq!(cache.len(), 0);
    cache.insert(identity.duplicate(), Arc::new(collection("0.8")));
    assert_eq!(cache.get(&identity).unwrap().version, "0.8");
    assert_eq!(cache.len(), 1);
    cache.insert(identity.duplicate(), Arc::new(collection("0.14")));
    assert_eq!(cache.get(&identity).unwrap().version, "0.14");
    assert_eq!(cache.len(), 1);
    let other = RefIdentity { id: "org.example.Foo".to_string(), arch: None, branch: None };
    assert!(cache.get(&other).is_none());
    cache.insert(other.duplicate(), Arc::new(collection("0.10")));
    assert_eq!(cache.len(), 2);
    assert_eq!(cache.get(&identity).unwrap().version, "0.14");
    assert_eq!(cache.get(&other).unwrap().version, "0.10");
}
