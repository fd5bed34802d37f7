//! Preparation: compiling a prevalidated module into an artifact.

use vstd::prelude::*;
use sc_executor_common::error::WasmError;
use crate::engine::compile_module;
use crate::engine::engine_semantics;
use crate::engine::wasm_fault;
use crate::error::PrepareError;
use crate::module::ValidatedModule;
use crate::params::ExecutorParam;
use crate::semantics::ExecutionSemantics;
use crate::semantics::params_to_wasmtime_semantics;
use crate::semantics::semantics_of;

verus! {

/// Where an artifact comes from.
pub enum ArtifactOrigin {
    /// Compiled here, from these prevalidated bytes, under these semantics.
    Prepared { source: Seq<u8>, semantics: ExecutionSemantics },
    /// Taken from bytes that a caller vouched for.
    Attested,
}

/// A serialized, compiled module: the only thing the execution engine may load.
///
/// Loading bytes that no preparation produced, or that were altered afterwards, can crash
/// the process or run arbitrary code. So an artifact cannot be written down freely: it comes
/// out of [`prepare`], or out of [`Artifact::from_trusted_bytes`], where the caller takes
/// the responsibility in so many words.
pub struct Artifact {
    bytes: Vec<u8>,
    origin: Ghost<ArtifactOrigin>,
}

impl View for Artifact {
    type V = Seq<u8>;

    closed spec fn view(&self) -> Seq<u8> {
        self.bytes@
    }
}

impl Artifact {
    /// Where this artifact comes from.
    pub closed spec fn origin(&self) -> ArtifactOrigin {
        self.origin@
    }

    /// Takes bytes read back from storage as an artifact. The caller attests that
    /// [`prepare`] produced them and that nothing has changed them since.
    pub fn from_trusted_bytes(bytes: Vec<u8>) -> (artifact: Artifact)
        ensures
            artifact@ == bytes@,
            artifact.origin() == ArtifactOrigin::Attested,
    {
        Artifact { bytes, origin: Ghost(ArtifactOrigin::Attested) }
    }

    /// The serialized form, as it may be persisted.
    pub fn as_bytes(&self) -> (bytes: &[u8])
        ensures
            bytes@ == self@,
    {
        self.bytes.as_slice()
    }

    /// Gives up the serialized form.
    pub fn into_bytes(self) -> (bytes: Vec<u8>)
        ensures
            bytes@ == self@,
    {
        self.bytes
    }
}

/// Runs preparation on a prevalidated module: ahead-of-time compilation under the
/// semantics that `executor_params` stand for, on one thread.
///
/// Whether the compiler succeeds is the engine's matter; [`preparation_result`] says what
/// is made of its answer. What is certain is what it was given, and an artifact records it.
pub fn prepare(blob: ValidatedModule, executor_params: &[ExecutorParam]) -> (r: Result<
    Artifact,
    PrepareError,
>)
    ensures
        r matches Ok(artifact) ==> artifact.origin() == (ArtifactOrigin::Prepared {
            source: blob.source(),
            semantics: semantics_of(executor_params@),
        }),
{
    let semantics = params_to_wasmtime_semantics(executor_params);
    let ghost source = blob.source();
    let outside = engine_semantics(&semantics);
    let outcome = compile_module(blob.into_blob(), &outside);
    artifact_or_error(outcome, Ghost(ArtifactOrigin::Prepared { source, semantics }))
}

/// What preparation makes of the compiler's answer: the bytes become an artifact of the
/// given origin, unchanged, and an error of the engine becomes a preparation error.
fn artifact_or_error(outcome: Result<Vec<u8>, WasmError>, origin: Ghost<ArtifactOrigin>) -> (r:
    Result<Artifact, PrepareError>)
    ensures
        outcome matches Ok(bytes) ==> r matches Ok(artifact) && artifact@ == bytes@
            && artifact.origin() == origin@,
        outcome is Err ==> r is Err,
{
    match outcome {
        Ok(bytes) => Ok(Artifact { bytes, origin }),
        Err(err) => Err(PrepareError { fault: wasm_fault(err) }),
    }
}

/// Reports the outcome of one compilation as preparation does.
///
/// `outcome` is what the compiler came back with. Bytes come through unchanged as an
/// artifact; an error comes through as a preparation error that carries the engine's
/// fault. Nothing here has seen the compilation, so the artifact counts as attested:
/// whoever hands the outcome in vouches that the compiler produced it.
pub fn preparation_result(outcome: Result<Vec<u8>, WasmError>) -> (r: Result<
    Artifact,
    PrepareError,
>)
    ensures
        outcome matches Ok(bytes) ==> r matches Ok(artifact) && artifact@ == bytes@
            && artifact.origin() == ArtifactOrigin::Attested,
        outcome is Err ==> r is Err,
{
    artifact_or_error(outcome, Ghost(ArtifactOrigin::Attested))
}

} // verus!
