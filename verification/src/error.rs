//! Failures that the sandbox reports as values.

use vstd::prelude::*;

verus! {

/// Why the engine could not turn code into something it can run.
#[derive(Clone, Debug, PartialEq, Eq)]
pub enum WasmFault {
    /// The code could not be read from the state.
    CodeNotFound,
    /// An instance could not be brought back to its snapshot.
    ApplySnapshotFailed,
    /// The linear memory could not be erased.
    ErasingFailed(String),
    /// The code failed validation.
    InvalidModule,
    /// The code could not be deserialized.
    CantDeserializeWasm,
    /// The module exports no linear memory named `memory`.
    InvalidMemory,
    /// The module does not allow the number of heap pages asked for.
    InvalidHeapPages,
    /// Instantiation failed.
    Instantiation(String),
    /// Anything else, in the engine's own words.
    Other(String),
}

/// A structural failure: the bytes are not a well-formed module container.
#[derive(Clone, Debug, PartialEq, Eq)]
pub enum PrevalidationError {
    /// The bytes do not begin with the eight-byte module header: this is no module.
    NotAModule(WasmFault),
    /// The header is there, but what follows is corrupt or cut short.
    Corrupt(WasmFault),
}

impl PrevalidationError {
    /// What the engine said of the failure.
    pub open spec fn spec_fault(&self) -> WasmFault {
        match *self {
            PrevalidationError::NotAModule(fault) => fault,
            PrevalidationError::Corrupt(fault) => fault,
        }
    }

    /// What the engine said of the failure.
    pub fn fault(&self) -> (fault: &WasmFault)
        ensures
            *fault == self.spec_fault(),
    {
        match self {
            PrevalidationError::NotAModule(fault) => fault,
            PrevalidationError::Corrupt(fault) => fault,
        }
    }
}

/// A failure of ahead-of-time compilation: an extension that is switched off, a fault inside
/// the compiler, or a resource that ran out. Nothing is retried.
#[derive(Clone, Debug, PartialEq, Eq)]
pub struct PrepareError {
    pub fault: WasmFault,
}

} // verus!
