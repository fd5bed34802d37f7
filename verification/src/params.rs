//! Executor parameters: the abstract, versioned knobs a caller hands to the sandbox.

use vstd::prelude::*;

verus! {

/// Which preparation job a preparation timeout applies to.
#[derive(Clone, Copy, Debug, PartialEq, Eq, Structural)]
pub enum PvfPrepTimeoutKind {
    /// Prechecking of a newly submitted validation function. The limit is strict: the
    /// outcome has to be the same on every machine.
    Precheck,
    /// Preparation ahead of execution. The limit is lenient: it only breaks off work
    /// that would otherwise go on for ever.
    Lenient,
}

/// Which execution job an execution timeout applies to.
#[derive(Clone, Copy, Debug, PartialEq, Eq, Structural)]
pub enum PvfExecTimeoutKind {
    /// Execution on behalf of backing.
    Backing,
    /// Execution on behalf of approval checking.
    Approval,
}

/// One entry of an executor parameter set.
///
/// The type does not enforce that a kind occurs at most once in a set; where a kind is
/// repeated, the last entry wins.
#[derive(Clone, Copy, Debug, PartialEq, Eq, Structural)]
pub enum ExecutorParam {
    /// Maximum number of linear-memory pages the module may request, before the reserve.
    MaxMemoryPages(u32),
    /// Ceiling on the number of logical items on the wasm stack.
    StackLogicalMax(u32),
    /// Ceiling on the number of bytes of native stack.
    StackNativeMax(u32),
    /// Memory limit for prechecking, in bytes. Not consumed by the sandbox.
    PrecheckingMaxMemory(u64),
    /// Preparation timeout in milliseconds. Not consumed by the sandbox.
    PvfPrepTimeout(PvfPrepTimeoutKind, u64),
    /// Execution timeout in milliseconds. Not consumed by the sandbox.
    PvfExecTimeout(PvfExecTimeoutKind, u64),
    /// Turns the bulk-memory instruction extension on.
    WasmExtBulkMemory,
}

/// The kind of an executor parameter, without its payload.
#[derive(Clone, Copy, Debug, PartialEq, Eq, Structural)]
pub enum ParamKind {
    MaxMemoryPages,
    StackLogicalMax,
    StackNativeMax,
    PrecheckingMaxMemory,
    PvfPrepTimeout,
    PvfExecTimeout,
    WasmExtBulkMemory,
}

impl ExecutorParam {
    /// The kind of this entry.
    pub open spec fn spec_kind(self) -> ParamKind {
        match self {
            ExecutorParam::MaxMemoryPages(_) => ParamKind::MaxMemoryPages,
            ExecutorParam::StackLogicalMax(_) => ParamKind::StackLogicalMax,
            ExecutorParam::StackNativeMax(_) => ParamKind::StackNativeMax,
            ExecutorParam::PrecheckingMaxMemory(_) => ParamKind::PrecheckingMaxMemory,
            ExecutorParam::PvfPrepTimeout(_, _) => ParamKind::PvfPrepTimeout,
            ExecutorParam::PvfExecTimeout(_, _) => ParamKind::PvfExecTimeout,
            ExecutorParam::WasmExtBulkMemory => ParamKind::WasmExtBulkMemory,
        }
    }

    /// The kind of this entry.
    #[verifier::when_used_as_spec(spec_kind)]
    pub fn kind(self) -> (k: ParamKind)
        ensures
            k == self.spec_kind(),
    {
        match self {
            ExecutorParam::MaxMemoryPages(_) => ParamKind::MaxMemoryPages,
            ExecutorParam::StackLogicalMax(_) => ParamKind::StackLogicalMax,
            ExecutorParam::StackNativeMax(_) => ParamKind::StackNativeMax,
            ExecutorParam::PrecheckingMaxMemory(_) => ParamKind::PrecheckingMaxMemory,
            ExecutorParam::PvfPrepTimeout(_, _) => ParamKind::PvfPrepTimeout,
            ExecutorParam::PvfExecTimeout(_, _) => ParamKind::PvfExecTimeout,
            ExecutorParam::WasmExtBulkMemory => ParamKind::WasmExtBulkMemory,
        }
    }
}

impl ParamKind {
    /// Whether entries of this kind change the execution semantics. The other kinds are
    /// accepted in a parameter set and not read here.
    pub open spec fn spec_affects_semantics(self) -> bool {
        self == ParamKind::MaxMemoryPages || self == ParamKind::StackLogicalMax
            || self == ParamKind::StackNativeMax || self == ParamKind::WasmExtBulkMemory
    }

    /// Whether entries of this kind change the execution semantics.
    #[verifier::when_used_as_spec(spec_affects_semantics)]
    pub fn affects_semantics(self) -> (b: bool)
        ensures
            b == self.spec_affects_semantics(),
    {
        match self {
            ParamKind::MaxMemoryPages => true,
            ParamKind::StackLogicalMax => true,
            ParamKind::StackNativeMax => true,
            ParamKind::WasmExtBulkMemory => true,
            ParamKind::PrecheckingMaxMemory => false,
            ParamKind::PvfPrepTimeout => false,
            ParamKind::PvfExecTimeout => false,
        }
    }
}

/// The last entry of the given kind in `params`, if there is one.
pub open spec fn last_of_kind(params: Seq<ExecutorParam>, kind: ParamKind) -> Option<ExecutorParam>
    decreases params.len(),
{
    if params.len() == 0 {
        None
    } else if params.last().spec_kind() == kind {
        Some(params.last())
    } else {
        last_of_kind(params.drop_last(), kind)
    }
}

/// The last entry of a kind is an entry of the sequence and has that kind, and no later
/// entry has it; there is none exactly when no entry has the kind.
pub proof fn lemma_last_of_kind(params: Seq<ExecutorParam>, kind: ParamKind)
    ensures
        match last_of_kind(params, kind) {
            Some(p) => exists|i: int|
                0 <= i < params.len() && params[i] == p && p.spec_kind() == kind
                    && forall|j: int| i < j < params.len() ==> (#[trigger] params[j]).spec_kind() != kind,
            None => forall|j: int| 0 <= j < params.len() ==> (#[trigger] params[j]).spec_kind() != kind,
        },
    decreases params.len(),
{
    if params.len() == 0 {
    } else if params.last().spec_kind() == kind {
        let i = params.len() - 1;
        assert(params[i] == params.last());
    } else {
        let rest = params.drop_last();
        lemma_last_of_kind(rest, kind);
        match last_of_kind(rest, kind) {
            Some(p) => {
                let i = choose|i: int|
                    0 <= i < rest.len() && rest[i] == p && p.spec_kind() == kind
                        && forall|j: int| i < j < rest.len() ==> (#[trigger] rest[j]).spec_kind() != kind;
                assert(params[i] == p);
                assert forall|j: int| i < j < params.len() implies (#[trigger] params[j]).spec_kind()
                    != kind by {
                    if j < rest.len() {
                        assert(rest[j] == params[j]);
                    }
                }
            },
            None => {
                assert forall|j: int| 0 <= j < params.len() implies (#[trigger] params[j]).spec_kind()
                    != kind by {
                    if j < rest.len() {
                        assert(rest[j] == params[j]);
                    }
                }
            },
        }
    }
}

} // verus!
