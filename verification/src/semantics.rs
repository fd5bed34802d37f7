//! Execution semantics: the fully resolved configuration of one compilation or execution,
//! and how a sequence of executor parameters resolves to it.

use vstd::prelude::*;
use crate::params::ExecutorParam;
use crate::params::ParamKind;
use crate::params::last_of_kind;

verus! {

/// Pages assumed to be taken by the module's data section and shadow stack. Added to every
/// requested maximum before it is stored.
pub const DEFAULT_HEAP_PAGES_ESTIMATE: u32 = 32;

/// Pages the heap may grow by when no parameter says otherwise.
pub const EXTRA_HEAP_PAGES: u32 = 2048;

/// Logical stack items allowed when no parameter says otherwise.
pub const DEFAULT_LOGICAL_STACK_MAX: u32 = 65536;

/// Bytes of native stack allowed when no parameter says otherwise (256 MiB).
pub const DEFAULT_NATIVE_STACK_MAX: u32 = 268435456;

/// How linear memory is sized.
#[derive(Clone, Copy, Debug, PartialEq, Eq, Structural)]
pub enum HeapAllocStrategy {
    /// A fixed number of pages on top of what the module asks for.
    Static { extra_pages: u32 },
    /// Start with what the module asks for and grow on demand, up to `maximum_pages` in all
    /// where that is given.
    Dynamic { maximum_pages: Option<u32> },
}

/// How an execution context is obtained from a compiled module.
#[derive(Clone, Copy, Debug, PartialEq, Eq, Structural)]
pub enum InstantiationStrategy {
    /// Keep a pool of instances; copy-on-write memory.
    PoolingCopyOnWrite,
    /// Build a new instance for every call; copy-on-write memory.
    RecreateInstanceCopyOnWrite,
    /// Keep a pool of instances.
    Pooling,
    /// Build a new instance for every call.
    RecreateInstance,
}

/// The two ceilings on stack use. The logical one is counted by instrumented code and is the
/// one meant to trip; the native one is set so high that it never comes first.
#[derive(Clone, Copy, Debug, PartialEq, Eq, Structural)]
pub struct DeterministicStackLimit {
    /// Number of logical items (locals, arguments, operands) that may be on the stack.
    pub logical_max: u32,
    /// Number of bytes of native stack that compiled code may use.
    pub native_stack_max: u32,
}

/// Everything that shapes one compilation or execution.
///
/// The stack limit is a plain field: a semantics value without one cannot be written.
#[derive(Clone, Copy, Debug, PartialEq, Eq, Structural)]
pub struct ExecutionSemantics {
    pub heap_alloc_strategy: HeapAllocStrategy,
    pub instantiation_strategy: InstantiationStrategy,
    pub deterministic_stack_limit: DeterministicStackLimit,
    /// NaN results are forced to one bit pattern.
    pub canonicalize_nans: bool,
    /// Functions are compiled on several threads.
    pub parallel_compilation: bool,
    pub wasm_reference_types: bool,
    pub wasm_simd: bool,
    pub wasm_bulk_memory: bool,
    pub wasm_multi_value: bool,
}

impl ExecutionSemantics {
    /// What no parameter can change: memory grows dynamically under a stated maximum, every
    /// call gets a fresh copy-on-write instance, NaNs are canonical, compilation is
    /// single-threaded, and reference types, SIMD and multi-value stay off.
    pub open spec fn is_deterministic(self) -> bool {
        &&& self.heap_alloc_strategy matches HeapAllocStrategy::Dynamic { maximum_pages: Some(_) }
        &&& self.instantiation_strategy == InstantiationStrategy::RecreateInstanceCopyOnWrite
        &&& self.canonicalize_nans
        &&& !self.parallel_compilation
        &&& !self.wasm_reference_types
        &&& !self.wasm_simd
        &&& !self.wasm_multi_value
    }

    /// The most pages linear memory may reach, where the strategy states it.
    pub open spec fn spec_maximum_pages(&self) -> Option<u32> {
        match self.heap_alloc_strategy {
            HeapAllocStrategy::Dynamic { maximum_pages } => maximum_pages,
            HeapAllocStrategy::Static { .. } => None,
        }
    }

    /// The most pages linear memory may reach, where the strategy states it.
    #[verifier::when_used_as_spec(spec_maximum_pages)]
    pub fn maximum_pages(&self) -> (pages: Option<u32>)
        ensures
            pages == self.spec_maximum_pages(),
    {
        match self.heap_alloc_strategy {
            HeapAllocStrategy::Dynamic { maximum_pages } => maximum_pages,
            HeapAllocStrategy::Static { .. } => None,
        }
    }
}

/// The baseline semantics in spec form.
pub open spec fn default_semantics() -> ExecutionSemantics {
    ExecutionSemantics {
        heap_alloc_strategy: HeapAllocStrategy::Dynamic {
            maximum_pages: Some((DEFAULT_HEAP_PAGES_ESTIMATE + EXTRA_HEAP_PAGES) as u32),
        },
        instantiation_strategy: InstantiationStrategy::RecreateInstanceCopyOnWrite,
        deterministic_stack_limit: DeterministicStackLimit {
            logical_max: DEFAULT_LOGICAL_STACK_MAX,
            native_stack_max: DEFAULT_NATIVE_STACK_MAX,
        },
        canonicalize_nans: true,
        parallel_compilation: false,
        wasm_reference_types: false,
        wasm_simd: false,
        wasm_bulk_memory: false,
        wasm_multi_value: false,
    }
}

/// The baseline semantics. Its values are never edited; a parameter set overrides them
/// through [`params_to_wasmtime_semantics`].
pub fn baseline_semantics() -> (sem: ExecutionSemantics)
    ensures
        sem == default_semantics(),
        sem.is_deterministic(),
{
    ExecutionSemantics {
        heap_alloc_strategy: HeapAllocStrategy::Dynamic {
            maximum_pages: Some(DEFAULT_HEAP_PAGES_ESTIMATE + EXTRA_HEAP_PAGES),
        },
        instantiation_strategy: InstantiationStrategy::RecreateInstanceCopyOnWrite,
        deterministic_stack_limit: DeterministicStackLimit {
            logical_max: DEFAULT_LOGICAL_STACK_MAX,
            native_stack_max: DEFAULT_NATIVE_STACK_MAX,
        },
        canonicalize_nans: true,
        parallel_compilation: false,
        wasm_reference_types: false,
        wasm_simd: false,
        wasm_bulk_memory: false,
        wasm_multi_value: false,
    }
}

/// A requested page count plus the reserve, held at the largest `u32`.
pub open spec fn pages_with_reserve(requested: u32) -> u32 {
    if requested + DEFAULT_HEAP_PAGES_ESTIMATE <= u32::MAX {
        (requested + DEFAULT_HEAP_PAGES_ESTIMATE) as u32
    } else {
        u32::MAX
    }
}

/// The semantics after one more parameter: the entry overwrites the one field it names and
/// leaves the rest. Bulk memory can be turned on, never off.
pub open spec fn apply_param(sem: ExecutionSemantics, p: ExecutorParam) -> ExecutionSemantics {
    match p {
        ExecutorParam::MaxMemoryPages(n) => ExecutionSemantics {
            heap_alloc_strategy: HeapAllocStrategy::Dynamic {
                maximum_pages: Some(pages_with_reserve(n)),
            },
            ..sem
        },
        ExecutorParam::StackLogicalMax(n) => ExecutionSemantics {
            deterministic_stack_limit: DeterministicStackLimit {
                logical_max: n,
                ..sem.deterministic_stack_limit
            },
            ..sem
        },
        ExecutorParam::StackNativeMax(n) => ExecutionSemantics {
            deterministic_stack_limit: DeterministicStackLimit {
                native_stack_max: n,
                ..sem.deterministic_stack_limit
            },
            ..sem
        },
        ExecutorParam::WasmExtBulkMemory => ExecutionSemantics { wasm_bulk_memory: true, ..sem },
        ExecutorParam::PrecheckingMaxMemory(_) => sem,
        ExecutorParam::PvfPrepTimeout(_, _) => sem,
        ExecutorParam::PvfExecTimeout(_, _) => sem,
    }
}

/// The semantics that a parameter sequence stands for: each field is set by the last entry
/// that names it, and keeps its baseline value where no entry does.
pub open spec fn semantics_of(params: Seq<ExecutorParam>) -> ExecutionSemantics {
    ExecutionSemantics {
        heap_alloc_strategy: HeapAllocStrategy::Dynamic {
            maximum_pages: Some(
                match last_of_kind(params, ParamKind::MaxMemoryPages) {
                    Some(ExecutorParam::MaxMemoryPages(n)) => pages_with_reserve(n),
                    _ => (DEFAULT_HEAP_PAGES_ESTIMATE + EXTRA_HEAP_PAGES) as u32,
                },
            ),
        },
        deterministic_stack_limit: DeterministicStackLimit {
            logical_max: match last_of_kind(params, ParamKind::StackLogicalMax) {
                Some(ExecutorParam::StackLogicalMax(n)) => n,
                _ => DEFAULT_LOGICAL_STACK_MAX,
            },
            native_stack_max: match last_of_kind(params, ParamKind::StackNativeMax) {
                Some(ExecutorParam::StackNativeMax(n)) => n,
                _ => DEFAULT_NATIVE_STACK_MAX,
            },
        },
        wasm_bulk_memory: last_of_kind(params, ParamKind::WasmExtBulkMemory) is Some,
        ..default_semantics()
    }
}

/// Taking one more entry into account is one application of [`apply_param`].
pub proof fn lemma_semantics_of_push(params: Seq<ExecutorParam>, p: ExecutorParam)
    ensures
        semantics_of(params.push(p)) == apply_param(semantics_of(params), p),
{
    let next = params.push(p);
    assert(next.last() == p);
    assert(next.drop_last() =~= params);
    assert(last_of_kind(next, ParamKind::MaxMemoryPages) == if p.spec_kind()
        == ParamKind::MaxMemoryPages {
        Some(p)
    } else {
        last_of_kind(params, ParamKind::MaxMemoryPages)
    });
    assert(last_of_kind(next, ParamKind::StackLogicalMax) == if p.spec_kind()
        == ParamKind::StackLogicalMax {
        Some(p)
    } else {
        last_of_kind(params, ParamKind::StackLogicalMax)
    });
    assert(last_of_kind(next, ParamKind::StackNativeMax) == if p.spec_kind()
        == ParamKind::StackNativeMax {
        Some(p)
    } else {
        last_of_kind(params, ParamKind::StackNativeMax)
    });
    assert(last_of_kind(next, ParamKind::WasmExtBulkMemory) == if p.spec_kind()
        == ParamKind::WasmExtBulkMemory {
        Some(p)
    } else {
        last_of_kind(params, ParamKind::WasmExtBulkMemory)
    });
}

/// Resolves an ordered parameter sequence to execution semantics.
///
/// Starts from the baseline and goes through the sequence once, in order. Never fails.
pub fn params_to_wasmtime_semantics(par: &[ExecutorParam]) -> (sem: ExecutionSemantics)
    ensures
        sem == semantics_of(par@),
        sem.is_deterministic(),
{
    let mut sem = baseline_semantics();
    let mut stack_limit = sem.deterministic_stack_limit;
    let mut i: usize = 0;
    assert(par@.take(0) =~= Seq::<ExecutorParam>::empty());
    while i < par.len()
        invariant
            i <= par.len(),
            (ExecutionSemantics { deterministic_stack_limit: stack_limit, ..sem }) == semantics_of(
                par@.take(i as int),
            ),
        decreases par.len() - i,
    {
        proof {
            assert(par@.take(i + 1) =~= par@.take(i as int).push(par@[i as int]));
            lemma_semantics_of_push(par@.take(i as int), par@[i as int]);
        }
        match par[i] {
            ExecutorParam::MaxMemoryPages(max_pages) => {
                sem.heap_alloc_strategy = HeapAllocStrategy::Dynamic {
                    maximum_pages: Some(max_pages.saturating_add(DEFAULT_HEAP_PAGES_ESTIMATE)),
                };
            },
            ExecutorParam::StackLogicalMax(slm) => {
                stack_limit.logical_max = slm;
            },
            ExecutorParam::StackNativeMax(snm) => {
                stack_limit.native_stack_max = snm;
            },
            ExecutorParam::WasmExtBulkMemory => {
                sem.wasm_bulk_memory = true;
            },
            ExecutorParam::PrecheckingMaxMemory(_) => {},
            ExecutorParam::PvfPrepTimeout(_, _) => {},
            ExecutorParam::PvfExecTimeout(_, _) => {},
        }
        i += 1;
    }
    assert(par@.take(i as int) =~= par@);
    sem.deterministic_stack_limit = stack_limit;
    sem
}

/// The semantics are a function of the last entry of each kind that is read: two sequences
/// that agree on those give the same semantics. In particular, entries may be reordered,
/// repeated or dropped freely as long as, for each such kind, the same entry stays last.
pub proof fn lemma_semantics_depend_on_last_settings(
    p: Seq<ExecutorParam>,
    q: Seq<ExecutorParam>,
)
    requires
        forall|kind: ParamKind|
            kind.spec_affects_semantics() ==> #[trigger] last_of_kind(p, kind) == last_of_kind(
                q,
                kind,
            ),
    ensures
        semantics_of(p) == semantics_of(q),
{
    assert(ParamKind::MaxMemoryPages.spec_affects_semantics());
    assert(ParamKind::StackLogicalMax.spec_affects_semantics());
    assert(ParamKind::StackNativeMax.spec_affects_semantics());
    assert(ParamKind::WasmExtBulkMemory.spec_affects_semantics());
}

/// The empty parameter sequence stands for the baseline, field for field.
pub proof fn lemma_empty_is_baseline()
    ensures
        semantics_of(Seq::<ExecutorParam>::empty()) == default_semantics(),
{
}

/// Where the last memory entry asks for `n` pages, the maximum is `n` plus the reserve, held
/// at the largest `u32`; where the sum fits, it is exactly the sum.
pub proof fn lemma_memory_pages_get_reserve(params: Seq<ExecutorParam>, n: u32)
    requires
        last_of_kind(params, ParamKind::MaxMemoryPages) == Some(ExecutorParam::MaxMemoryPages(n)),
    ensures
        semantics_of(params).spec_maximum_pages() == Some(pages_with_reserve(n)),
        n + DEFAULT_HEAP_PAGES_ESTIMATE <= u32::MAX ==> semantics_of(params).spec_maximum_pages()
            == Some((n + DEFAULT_HEAP_PAGES_ESTIMATE) as u32),
{
}

/// An entry that sets a field decides that field when it comes last, whatever came before.
pub proof fn lemma_last_write_wins(params: Seq<ExecutorParam>, value: u32)
    ensures
        semantics_of(params.push(ExecutorParam::MaxMemoryPages(value))).spec_maximum_pages()
            == Some(pages_with_reserve(value)),
        semantics_of(
            params.push(ExecutorParam::StackLogicalMax(value)),
        ).deterministic_stack_limit.logical_max == value,
        semantics_of(
            params.push(ExecutorParam::StackNativeMax(value)),
        ).deterministic_stack_limit.native_stack_max == value,
        semantics_of(params.push(ExecutorParam::WasmExtBulkMemory)).wasm_bulk_memory,
{
    lemma_semantics_of_push(params, ExecutorParam::MaxMemoryPages(value));
    lemma_semantics_of_push(params, ExecutorParam::StackLogicalMax(value));
    lemma_semantics_of_push(params, ExecutorParam::StackNativeMax(value));
    lemma_semantics_of_push(params, ExecutorParam::WasmExtBulkMemory);
}

/// An entry of a kind that is not read changes nothing.
pub proof fn lemma_unread_kinds_change_nothing(params: Seq<ExecutorParam>, p: ExecutorParam)
    requires
        !p.spec_kind().spec_affects_semantics(),
    ensures
        semantics_of(params.push(p)) == semantics_of(params),
{
    lemma_semantics_of_push(params, p);
}

/// Resolution is one pass from the baseline: the semantics of a sequence is what comes of
/// applying its entries in order, each to the result of the one before.
pub proof fn lemma_semantics_are_one_pass(params: Seq<ExecutorParam>)
    ensures
        semantics_of(params) == params.fold_left(
            default_semantics(),
            |sem: ExecutionSemantics, p: ExecutorParam| apply_param(sem, p),
        ),
    decreases params.len(),
{
    if params.len() > 0 {
        lemma_semantics_are_one_pass(params.drop_last());
        assert(params.drop_last().push(params.last()) =~= params);
        lemma_semantics_of_push(params.drop_last(), params.last());
    }
}

/// Whatever the parameters, the fixed part of the configuration stays as the baseline has it.
pub proof fn lemma_semantics_keep_determinism(params: Seq<ExecutorParam>)
    ensures
        semantics_of(params).is_deterministic(),
        semantics_of(params).instantiation_strategy == default_semantics().instantiation_strategy,
        semantics_of(params).canonicalize_nans,
        !semantics_of(params).parallel_compilation,
{
}

/// Once a sequence has turned bulk memory on, nothing that follows turns it off.
pub proof fn lemma_bulk_memory_stays_on(params: Seq<ExecutorParam>, more: Seq<ExecutorParam>)
    requires
        semantics_of(params).wasm_bulk_memory,
    ensures
        semantics_of(params + more).wasm_bulk_memory,
    decreases more.len(),
{
    if more.len() == 0 {
        assert(params + more =~= params);
    } else {
        lemma_bulk_memory_stays_on(params, more.drop_last());
        assert((params + more.drop_last()).push(more.last()) =~= params + more);
        lemma_semantics_of_push(params + more.drop_last(), more.last());
    }
}

} // verus!
