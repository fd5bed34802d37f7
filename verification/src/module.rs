//! Prevalidation: the structural check that raw bytes form a module.

use vstd::prelude::*;
use sc_executor_common::runtime_blob::RuntimeBlob;
use crate::engine::has_module_header;
use crate::engine::module_encoding;
use crate::engine::module_parses;
use crate::engine::parse_module;
use crate::engine::serialize_module;
use crate::engine::wasm_fault;
use crate::error::PrevalidationError;

verus! {

/// A module that has passed prevalidation. Only [`prevalidate`] makes one.
pub struct ValidatedModule {
    blob: RuntimeBlob,
    source: Ghost<Seq<u8>>,
}

impl ValidatedModule {
    #[verifier::type_invariant]
    spec fn parsed_from_source(self) -> bool {
        module_parses(self.source@)
    }

    /// The bytes that were prevalidated.
    pub closed spec fn source(&self) -> Seq<u8> {
        self.source@
    }

    /// The bytes this module serializes to.
    pub closed spec fn encoding(&self) -> Seq<u8> {
        module_encoding(self.blob)
    }

    /// Writes the module out again.
    pub fn serialize(self) -> (bytes: Vec<u8>)
        ensures
            bytes@ == self.encoding(),
            module_parses(self.source()),
    {
        proof {
            use_type_invariant(&self);
        }
        serialize_module(self.blob)
    }

    /// Gives the parsed module up to the engine.
    pub fn into_blob(self) -> (blob: RuntimeBlob)
        ensures
            module_encoding(blob) == self.encoding(),
            module_parses(self.source()),
    {
        proof {
            use_type_invariant(&self);
        }
        self.blob
    }
}

/// Whether `code` begins with the module header.
pub fn starts_with_module_header(code: &[u8]) -> (b: bool)
    ensures
        b == has_module_header(code@),
{
    code.len() >= 8 && code[0] == 0x00 && code[1] == 0x61 && code[2] == 0x73 && code[3] == 0x6d
        && code[4] == 0x01 && code[5] == 0x00 && code[6] == 0x00 && code[7] == 0x00
}

/// Runs prevalidation on the given code: structural parsing and nothing else.
///
/// Succeeds exactly on the bytes that the parser accepts. A failure says whether the bytes
/// are no module at all or a module that is corrupt or cut short, and carries the parser's
/// own words.
pub fn prevalidate(code: &[u8]) -> (r: Result<ValidatedModule, PrevalidationError>)
    ensures
        r is Ok <==> module_parses(code@),
        r matches Ok(module) ==> module.source() == code@,
        r matches Err(e) ==> (e is NotAModule <==> !has_module_header(code@)),
        !has_module_header(code@) ==> r is Err,
{
    match parse_module(code) {
        Ok(blob) => Ok(ValidatedModule { blob, source: Ghost(code@) }),
        Err(err) => {
            let fault = wasm_fault(err);
            if starts_with_module_header(code) {
                Err(PrevalidationError::Corrupt(fault))
            } else {
                Err(PrevalidationError::NotAModule(fault))
            }
        },
    }
}

} // verus!
