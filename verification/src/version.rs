//! The version reader: finds the version that a blob carries, without running it.

use vstd::prelude::*;
use vstd::string::StringExecFns;
use sc_executor_common::runtime_blob::RuntimeBlob;
use crate::engine::blob_opens;
use crate::engine::debug_text;
use crate::engine::open_blob;

verus! {

/// Why no version could be read. The three are kept apart: a blob that is corrupt, one
/// that carries no version, and one whose version does not decode call for different
/// answers further up.
#[derive(Clone, Debug, PartialEq, Eq)]
pub enum VersionError {
    /// The blob does not decompress, or what it holds is no module.
    MalformedBlob(String),
    /// The module has no version section.
    SectionNotFound,
    /// The version section is there and does not decode.
    DecodeFailure(String),
}

impl VersionError {
    /// The failure in words, in spec form.
    pub open spec fn spec_message(&self) -> Seq<char> {
        match *self {
            VersionError::MalformedBlob(detail) => "Failed to read the PVF runtime blob: "@
                + detail@,
            VersionError::SectionNotFound => "runtime version section is not found"@,
            VersionError::DecodeFailure(detail) =>
                "Failed to read the static section from the PVF blob: "@ + detail@,
        }
    }

    /// The failure in words.
    pub fn message(&self) -> (text: String)
        ensures
            text@ == self.spec_message(),
    {
        match self {
            VersionError::MalformedBlob(detail) => String::from_str(
                "Failed to read the PVF runtime blob: ",
            ).concat(detail.as_str()),
            VersionError::SectionNotFound => String::from_str(
                "runtime version section is not found",
            ),
            VersionError::DecodeFailure(detail) => String::from_str(
                "Failed to read the static section from the PVF blob: ",
            ).concat(detail.as_str()),
        }
    }
}

/// Opens a blob for reading its version: decompresses it where it is compressed and
/// parses it. Nothing is instantiated or run.
///
/// Succeeds exactly on the blobs that open; every failure is a malformed blob.
pub fn open_version_blob(wasm_code: &[u8]) -> (r: Result<RuntimeBlob, VersionError>)
    ensures
        r is Ok <==> blob_opens(wasm_code@),
        r matches Err(e) ==> e is MalformedBlob,
        wasm_code@.len() < 8 ==> r is Err,
{
    match open_blob(wasm_code) {
        Ok(blob) => Ok(blob),
        Err(err) => Err(VersionError::MalformedBlob(debug_text(&err))),
    }
}

/// What the version reader returns for one lookup, in spec form.
pub open spec fn spec_version_from_section(
    section: Result<Option<Vec<u8>>, String>,
) -> Result<Seq<u8>, VersionError> {
    match section {
        Ok(Some(version)) => Ok(version@),
        Ok(None) => Err(VersionError::SectionNotFound),
        Err(detail) => Err(VersionError::DecodeFailure(detail)),
    }
}

/// Turns the lookup of the version section in an opened blob into the reader's result.
///
/// `section` is the encoded version where the section was found and decoded, `None` where
/// the blob has no such section, and the decoder's complaint where it has one that does
/// not decode.
pub fn version_from_section(section: Result<Option<Vec<u8>>, String>) -> (r: Result<
    Vec<u8>,
    VersionError,
>)
    ensures
        match spec_version_from_section(section) {
            Ok(version) => r matches Ok(bytes) && bytes@ == version,
            Err(e) => r == Err::<Vec<u8>, VersionError>(e),
        },
{
    match section {
        Ok(Some(version)) => Ok(version),
        Ok(None) => Err(VersionError::SectionNotFound),
        Err(detail) => Err(VersionError::DecodeFailure(detail)),
    }
}

/// The three failures can be told apart, as values and by their wording, whatever detail
/// they carry: a blob without a version never reads like a blob that is no module.
pub proof fn lemma_failures_are_distinct(a: VersionError, b: VersionError)
    requires
        (a is MalformedBlob && !(b is MalformedBlob)) || (a is SectionNotFound && !(b
            is SectionNotFound)) || (a is DecodeFailure && !(b is DecodeFailure)),
    ensures
        a != b,
        a.spec_message() != b.spec_message(),
{
    reveal_strlit("Failed to read the PVF runtime blob: ");
    reveal_strlit("runtime version section is not found");
    reveal_strlit("Failed to read the static section from the PVF blob: ");
    let x = a.spec_message();
    let y = b.spec_message();
    if a is SectionNotFound || b is SectionNotFound {
        assert(x[0] != y[0]);
    } else {
        assert(x[19] != y[19]);
    }
}

} // verus!
