//! Execution: what the engine is configured with for one call, which entry point is
//! called, and what is reported of the call.

use vstd::prelude::*;
use vstd::string::StringExecFns;
use crate::params::ExecutorParam;
use crate::semantics::baseline_semantics;
use crate::semantics::default_semantics;
use crate::semantics::params_to_wasmtime_semantics;
use crate::semantics::semantics_of;
use crate::semantics::ExecutionSemantics;

verus! {

/// The configuration that a runtime is built with.
#[derive(Clone, Debug, PartialEq, Eq)]
pub struct ExecutorConfig {
    /// Imports that the host does not provide are bound to stubs that trap when called,
    /// so that instantiation does not fail on them.
    pub allow_missing_func_imports: bool,
    /// Directory for the engine's own cache of compiled code, if any.
    pub cache_path: Option<String>,
    pub semantics: ExecutionSemantics,
}

/// The baseline configuration in spec form: missing imports are allowed, nothing is
/// cached, the semantics are the baseline semantics.
pub open spec fn default_config() -> ExecutorConfig {
    ExecutorConfig {
        allow_missing_func_imports: true,
        cache_path: None,
        semantics: default_semantics(),
    }
}

/// The baseline configuration.
pub fn baseline_config() -> (config: ExecutorConfig)
    ensures
        config == default_config(),
{
    ExecutorConfig {
        allow_missing_func_imports: true,
        cache_path: None,
        semantics: baseline_semantics(),
    }
}

/// The configuration for building a runtime from an artifact: the baseline, with the
/// semantics that `executor_params` stand for in place of the baseline semantics.
pub fn runtime_config(executor_params: &[ExecutorParam]) -> (config: ExecutorConfig)
    ensures
        config == (ExecutorConfig {
            semantics: semantics_of(executor_params@),
            ..default_config()
        }),
        config.semantics.is_deterministic(),
{
    let mut config = baseline_config();
    config.semantics = params_to_wasmtime_semantics(executor_params);
    config
}

/// The one exported function that is called in a validation function.
pub fn entry_point() -> (name: &'static str)
    ensures
        name@ == "validate_block"@,
{
    "validate_block"
}

/// What is reported of a failed execution.
pub open spec fn execute_error_text(detail: Seq<char>) -> Seq<char> {
    "execute error: "@ + detail
}

/// What `execute` reports of one call, in spec form.
pub open spec fn spec_execution_result(
    outcome: Result<Result<Vec<u8>, String>, String>,
) -> Result<Seq<u8>, Seq<char>> {
    match outcome {
        Ok(Ok(output)) => Ok(output@),
        Ok(Err(detail)) => Err(execute_error_text(detail@)),
        Err(detail) => Err(execute_error_text(detail@)),
    }
}

/// Reports the outcome of one call through a single channel.
///
/// `outcome` is what the guarded call came to: the bytes that the entry point returned;
/// or, inside, the engine's error where building the runtime, instantiating it or the call
/// itself failed; or, outside, what was caught where the call panicked. A failure of either
/// kind is reported alike, with the detail behind a fixed prefix.
pub fn execution_result(outcome: Result<Result<Vec<u8>, String>, String>) -> (r: Result<
    Vec<u8>,
    String,
>)
    ensures
        match spec_execution_result(outcome) {
            Ok(output) => r matches Ok(bytes) && bytes@ == output,
            Err(text) => r matches Err(message) && message@ == text,
        },
{
    match outcome {
        Ok(Ok(output)) => Ok(output),
        Ok(Err(detail)) => Err(String::from_str("execute error: ").concat(detail.as_str())),
        Err(detail) => Err(String::from_str("execute error: ").concat(detail.as_str())),
    }
}

/// A validation that returned comes through unchanged, and nothing else is a success.
pub proof fn lemma_success_is_the_returned_output(
    outcome: Result<Result<Vec<u8>, String>, String>,
)
    ensures
        spec_execution_result(outcome) is Ok <==> outcome matches Ok(Ok(_)),
        outcome matches Ok(Ok(output)) ==> spec_execution_result(outcome) == Ok::<
            Seq<u8>,
            Seq<char>,
        >(output@),
{
}

/// Where the call failed, the report does not say at which stage: a failure inside the
/// guarded call and one caught outside it read the same when their details do.
pub proof fn lemma_failures_are_reported_alike(inner: String, outer: String)
    requires
        inner@ == outer@,
    ensures
        spec_execution_result(Ok(Err(inner))) == spec_execution_result(Err(outer)),
{
}

} // verus!
