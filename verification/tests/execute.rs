use pvf_executor::execute::baseline_config;
use pvf_executor::execute::entry_point;
use pvf_executor::execute::execution_result;
use pvf_executor::execute::runtime_config;
use pvf_executor::params::ExecutorParam;
use pvf_executor::semantics::baseline_semantics;
use pvf_executor::semantics::params_to_wasmtime_semantics;

#[test]
fn baseline_config_allows_missing_imports_and_caches_nothing() {
    let config = baseline_config();
    assert!(config.allow_missing_func_imports);
    assert_eq!(config.cache_path, None);
    assert_eq!(config.semantics, baseline_semantics());
}

#[test]
fn runtime_config_takes_the_resolved_semantics() {
    let params = [ExecutorParam::MaxMemoryPages(1000), ExecutorParam::WasmExtBulkMemory];
    let config = runtime_config(&params);
    assert!(config.allow_missing_func_imports);
    assert_eq!(config.cache_path, None);
    assert_eq!(config.semantics, params_to_wasmtime_semantics(&params));
    assert_eq!(config.semantics.maximum_pages(), Some(1032));
    assert_eq!(runtime_config(&[]), baseline_config());
}

#[test]
fn the_entry_point_is_validate_block() {
    assert_eq!(entry_point(), "validate_block");
}

#[test]
fn returned_bytes_come_through_unchanged() {
    let input = vec![1u8, 2, 3, 0, 255];
    assert_eq!(execution_result(Ok(Ok(input.clone()))), Ok(input));
    assert_eq!(execution_result(Ok(Ok(Vec::new()))), Ok(Vec::new()));
}

#[test]
fn a_failed_call_is_reported_with_the_prefix() {
    assert_eq!(
        execution_result(Ok(Err("InvalidReturn".to_string()))),
        Err("execute error: InvalidReturn".to_string())
    );
    assert_eq!(execution_result(Ok(Err(String::new()))), Err("execute error: ".to_string()));
}

#[test]
fn a_caught_panic_is_reported_like_a_failed_call() {
    let detail = "RuntimePanicked(\"storage: unsupported feature for parachain validation\")";
    assert_eq!(
        execution_result(Err(detail.to_string())),
        Err(format!("execute error: {}", detail))
    );
    assert_eq!(
        execution_result(Err("Other(\"x\")".to_string())),
        execution_result(Ok(Err("Other(\"x\")".to_string())))
    );
}

#[test]
fn the_same_outcome_is_reported_the_same_way_twice() {
    let outcome: Result<Result<Vec<u8>, String>, String> = Ok(Ok(vec![9, 8, 7]));
    assert_eq!(execution_result(outcome.clone()), execution_result(outcome));
}
