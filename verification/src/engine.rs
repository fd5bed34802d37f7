//! The boundary to the bytecode engine: the outside types that pass through the library
//! and the calls that are believed, not proved.

use vstd::prelude::*;
use sc_executor_common::error::WasmError;
use sc_executor_common::runtime_blob::RuntimeBlob;
use sc_executor_common::wasm_runtime;
use sc_executor_wasmtime::DeterministicStackLimit;
use sc_executor_wasmtime::Semantics;
use sp_externalities::Extensions;
use std::any::TypeId;
use crate::error::WasmFault;
use crate::semantics::ExecutionSemantics;
use crate::semantics::HeapAllocStrategy;
use crate::semantics::InstantiationStrategy;

verus! {

/// `RuntimeBlob`: a parsed module. Opaque here.
#[verifier::external_type_specification]
#[verifier::external_body]
pub struct ExRuntimeBlob(RuntimeBlob);

/// `WasmError`: the engine's error for anything that goes wrong before a call. Opaque here.
#[verifier::external_type_specification]
#[verifier::external_body]
pub struct ExWasmError(WasmError);

/// `Semantics`: the engine's own record of the execution semantics. Opaque here.
#[verifier::external_type_specification]
#[verifier::external_body]
pub struct ExSemantics(Semantics);

/// `Extensions`: the registry of extensions, keyed by type. Opaque here.
#[verifier::external_type_specification]
#[verifier::external_body]
pub struct ExExtensions(Extensions);

/// `TypeId`: the key under which an extension is registered. Opaque here.
#[verifier::external_type_specification]
#[verifier::external_body]
pub struct ExTypeId(TypeId);

/// Whether the engine's parser accepts `code` as a module.
pub uninterp spec fn module_parses(code: Seq<u8>) -> bool;

/// Whether `code`, decompressed where it is compressed, is accepted as a module.
pub uninterp spec fn blob_opens(code: Seq<u8>) -> bool;

/// The bytes that a parsed module serializes to.
pub uninterp spec fn module_encoding(blob: RuntimeBlob) -> Seq<u8>;

/// The types under which an extension is registered.
pub uninterp spec fn registered(extensions: Extensions) -> Set<TypeId>;

/// The eight bytes every module begins with: the magic `\0asm` and version 1.
pub open spec fn has_module_header(code: Seq<u8>) -> bool {
    &&& code.len() >= 8
    &&& code[0] == 0x00 && code[1] == 0x61 && code[2] == 0x73 && code[3] == 0x6d
    &&& code[4] == 0x01 && code[5] == 0x00 && code[6] == 0x00 && code[7] == 0x00
}

/// `RuntimeBlob::new`: parses `code` without decompressing it. Whether it succeeds depends on
/// the bytes alone. The parser reads the magic and the version first and gives up where
/// either is missing or wrong, so a module that parses begins with the header.
#[verifier::external_body]
pub(crate) fn parse_module(code: &[u8]) -> (r: Result<RuntimeBlob, WasmError>)
    ensures
        r is Ok <==> module_parses(code@),
        r is Ok ==> has_module_header(code@),
{
    RuntimeBlob::new(code)
}

/// `RuntimeBlob::uncompress_if_needed`: decompresses `code` where it carries the compression
/// prefix, then parses it. Whether it succeeds depends on the bytes alone. Fewer than eight
/// bytes hold neither the prefix nor a module header, so they are refused.
#[verifier::external_body]
pub(crate) fn open_blob(code: &[u8]) -> (r: Result<RuntimeBlob, WasmError>)
    ensures
        r is Ok <==> blob_opens(code@),
        code@.len() < 8 ==> r is Err,
{
    RuntimeBlob::uncompress_if_needed(code)
}

/// `RuntimeBlob::serialize`: writes the parsed module out again.
#[verifier::external_body]
pub(crate) fn serialize_module(blob: RuntimeBlob) -> (bytes: Vec<u8>)
    ensures
        bytes@ == module_encoding(blob),
{
    blob.serialize()
}

/// Moves a `WasmError` into the library's own type, variant for variant and with the text
/// it carries. Nothing is claimed of the result.
#[verifier::external_body]
pub(crate) fn wasm_fault(err: WasmError) -> (fault: WasmFault) {
    match err {
        WasmError::CodeNotFound => WasmFault::CodeNotFound,
        WasmError::ApplySnapshotFailed => WasmFault::ApplySnapshotFailed,
        WasmError::ErasingFailed(text) => WasmFault::ErasingFailed(text),
        WasmError::InvalidModule => WasmFault::InvalidModule,
        WasmError::CantDeserializeWasm => WasmFault::CantDeserializeWasm,
        WasmError::InvalidMemory => WasmFault::InvalidMemory,
        WasmError::InvalidHeapPages => WasmFault::InvalidHeapPages,
        WasmError::Instantiation(text) => WasmFault::Instantiation(text),
        WasmError::Other(text) => WasmFault::Other(text),
    }
}

/// A `WasmError` as its `Debug` impl prints it. Nothing is claimed of the text.
#[verifier::external_body]
pub(crate) fn debug_text(err: &WasmError) -> (text: String) {
    format!("{:?}", err)
}

/// Writes the library's semantics out as the engine's `Semantics`, field for field and
/// variant for variant. Nothing is claimed of the result, which is opaque here.
#[verifier::external_body]
pub(crate) fn engine_semantics(sem: &ExecutionSemantics) -> (outside: Semantics) {
    let heap_alloc_strategy = match sem.heap_alloc_strategy {
        HeapAllocStrategy::Static { extra_pages } => wasm_runtime::HeapAllocStrategy::Static { extra_pages },
        HeapAllocStrategy::Dynamic { maximum_pages } => wasm_runtime::HeapAllocStrategy::Dynamic { maximum_pages },
    };
    let instantiation_strategy = match sem.instantiation_strategy {
        InstantiationStrategy::PoolingCopyOnWrite => sc_executor_wasmtime::InstantiationStrategy::PoolingCopyOnWrite,
        InstantiationStrategy::RecreateInstanceCopyOnWrite => sc_executor_wasmtime::InstantiationStrategy::RecreateInstanceCopyOnWrite,
        InstantiationStrategy::Pooling => sc_executor_wasmtime::InstantiationStrategy::Pooling,
        InstantiationStrategy::RecreateInstance => sc_executor_wasmtime::InstantiationStrategy::RecreateInstance,
    };
    let limit = DeterministicStackLimit { logical_max: sem.deterministic_stack_limit.logical_max, native_stack_max: sem.deterministic_stack_limit.native_stack_max };
    Semantics { heap_alloc_strategy, instantiation_strategy, deterministic_stack_limit: Some(limit), canonicalize_nans: sem.canonicalize_nans, parallel_compilation: sem.parallel_compilation, wasm_multi_value: sem.wasm_multi_value, wasm_bulk_memory: sem.wasm_bulk_memory, wasm_reference_types: sem.wasm_reference_types, wasm_simd: sem.wasm_simd }
}

/// `prepare_runtime_artifact`: compiles a parsed module ahead of time under the given
/// semantics and serializes the result. The bytes depend on the machine and on the
/// process environment as well, so nothing is claimed of them.
#[verifier::external_body]
pub(crate) fn compile_module(blob: RuntimeBlob, semantics: &Semantics) -> (r: Result<Vec<u8>, WasmError>) {
    sc_executor_wasmtime::prepare_runtime_artifact(blob, semantics)
}

/// `Extensions::deregister`: removes the extension registered under `type_id`, and says
/// whether there was one.
#[verifier::external_body]
pub(crate) fn remove_extension(extensions: &mut Extensions, type_id: TypeId) -> (found: bool)
    ensures
        found == registered(*old(extensions)).contains(type_id),
        registered(*final(extensions)) == registered(*old(extensions)).remove(type_id),
{
    extensions.deregister(type_id)
}

} // verus!
