use pvf_executor::version::open_version_blob;
use pvf_executor::version::version_from_section;
use pvf_executor::version::VersionError;

fn bare_module() -> Vec<u8> {
    vec![0x00, 0x61, 0x73, 0x6d, 0x01, 0x00, 0x00, 0x00]
}

/// A module whose only section is a custom section with the given name and payload.
fn module_with_custom_section(name: &str, payload: &[u8]) -> Vec<u8> {
    let mut m = bare_module();
    m.push(0x00);
    m.push((1 + name.len() + payload.len()) as u8);
    m.push(name.len() as u8);
    m.extend_from_slice(name.as_bytes());
    m.extend_from_slice(payload);
    m
}

#[test]
fn a_blob_that_is_no_module_is_malformed() {
    match open_version_blob(b"definitely not wasm") {
        Err(VersionError::MalformedBlob(detail)) => {
            assert_eq!(detail, "Other(\"cannot deserialize module: InvalidMagic\")");
        },
        _ => panic!("must be refused as malformed"),
    }
    assert!(matches!(open_version_blob(&[]), Err(VersionError::MalformedBlob(_))));
}

#[test]
fn a_blob_without_version_section_is_section_not_found() {
    let blob = open_version_blob(&bare_module()).ok().expect("a bare module opens");
    assert!(blob.custom_section_contents("runtime_version").is_none());
    let missing = version_from_section(Ok(None));
    assert_eq!(missing, Err(VersionError::SectionNotFound));
    let malformed = open_version_blob(b"definitely not wasm").err().expect("refused");
    assert_ne!(missing.clone().err().expect("error"), malformed);
    assert_ne!(missing.err().expect("error").message(), malformed.message());
}

#[test]
fn a_version_section_is_found_in_an_opened_blob() {
    let code = module_with_custom_section("runtime_version", &[1, 2, 3, 4]);
    let blob = open_version_blob(&code).ok().expect("opens");
    let section = blob.custom_section_contents("runtime_version").map(|s| s.to_vec());
    assert_eq!(section, Some(vec![1, 2, 3, 4]));
    assert_eq!(version_from_section(Ok(section)), Ok(vec![1, 2, 3, 4]));
}

#[test]
fn a_compressed_blob_is_decompressed_first() {
    let code = module_with_custom_section("runtime_version", &[5, 6]);
    let compressed = sp_maybe_compressed_blob::compress_weakly(&code, 1024).expect("small");
    assert_ne!(compressed, code);
    let blob = open_version_blob(&compressed).ok().expect("opens");
    assert_eq!(blob.custom_section_contents("runtime_version"), Some(&[5u8, 6][..]));
    assert_eq!(blob.serialize(), code);
}

#[test]
fn a_broken_compressed_blob_is_malformed() {
    let mut broken = vec![82, 188, 83, 118, 70, 219, 142, 5];
    broken.extend_from_slice(&[1, 2, 3]);
    match open_version_blob(&broken) {
        Err(VersionError::MalformedBlob(detail)) => {
            assert!(detail.starts_with("Other(\"Decompression error"));
        },
        _ => panic!("must be refused as malformed"),
    }
}

#[test]
fn an_undecodable_section_is_a_decode_failure() {
    let r = version_from_section(Err(
        "Instantiation(\"failed to decode version section\")".to_string()
    ));
    assert_eq!(
        r,
        Err(VersionError::DecodeFailure(
            "Instantiation(\"failed to decode version section\")".to_string()
        ))
    );
}

#[test]
fn version_errors_read_as_documented() {
    assert_eq!(
        VersionError::MalformedBlob("Other(\"x\")".to_string()).message(),
        "Failed to read the PVF runtime blob: Other(\"x\")"
    );
    assert_eq!(
        VersionError::DecodeFailure("Other(\"y\")".to_string()).message(),
        "Failed to read the static section from the PVF blob: Other(\"y\")"
    );
    assert_eq!(VersionError::SectionNotFound.message(), "runtime version section is not found");
}
