//! The host capability guard: what executed code may reach, and what happens where it
//! reaches for anything else.

use vstd::prelude::*;
use vstd::string::StringExecFns;
use sp_externalities::Extensions;
use std::any::TypeId;
use crate::engine::registered;
use crate::engine::remove_extension;

verus! {

/// The groups of host functions that executed code may call. The list is closed: storage,
/// tracing, off-chain work, nested sandboxing and runtime tasks are not in it.
#[derive(Clone, Copy, Debug, PartialEq, Eq, Structural)]
pub enum CapabilityGroup {
    Misc,
    Crypto,
    Hashing,
    Allocator,
    Logging,
    Trie,
}

/// The capability groups, in the order in which they are wired into an execution context.
pub fn capability_groups() -> (groups: Vec<CapabilityGroup>)
    ensures
        groups@ == seq![
            CapabilityGroup::Misc,
            CapabilityGroup::Crypto,
            CapabilityGroup::Hashing,
            CapabilityGroup::Allocator,
            CapabilityGroup::Logging,
            CapabilityGroup::Trie,
        ],
{
    let mut groups = Vec::new();
    groups.push(CapabilityGroup::Misc);
    groups.push(CapabilityGroup::Crypto);
    groups.push(CapabilityGroup::Hashing);
    groups.push(CapabilityGroup::Allocator);
    groups.push(CapabilityGroup::Logging);
    groups.push(CapabilityGroup::Trie);
    groups
}

/// The operations on persistent state that the externalities surface offers. A validation
/// function has no persistent state, so the guard answers each of them with a fatal fault.
#[derive(Clone, Copy, Debug, PartialEq, Eq, Structural)]
pub enum StorageOperation {
    Storage,
    StorageHash,
    ChildStorageHash,
    ChildStorage,
    KillChildStorage,
    ClearPrefix,
    ClearChildPrefix,
    PlaceStorage,
    PlaceChildStorage,
    StorageRoot,
    ChildStorageRoot,
    NextChildStorageKey,
    NextStorageKey,
    StorageAppend,
    StorageStartTransaction,
    StorageRollbackTransaction,
    StorageCommitTransaction,
    Wipe,
    Commit,
    ReadWriteCount,
    ResetReadWriteCount,
    GetWhitelist,
    SetWhitelist,
    SetOffchainStorage,
    GetReadAndWrittenKeys,
}

impl StorageOperation {
    /// The operation's name on the externalities surface.
    pub open spec fn spec_name(self) -> Seq<char> {
        match self {
            StorageOperation::Storage => "storage"@,
            StorageOperation::StorageHash => "storage_hash"@,
            StorageOperation::ChildStorageHash => "child_storage_hash"@,
            StorageOperation::ChildStorage => "child_storage"@,
            StorageOperation::KillChildStorage => "kill_child_storage"@,
            StorageOperation::ClearPrefix => "clear_prefix"@,
            StorageOperation::ClearChildPrefix => "clear_child_prefix"@,
            StorageOperation::PlaceStorage => "place_storage"@,
            StorageOperation::PlaceChildStorage => "place_child_storage"@,
            StorageOperation::StorageRoot => "storage_root"@,
            StorageOperation::ChildStorageRoot => "child_storage_root"@,
            StorageOperation::NextChildStorageKey => "next_child_storage_key"@,
            StorageOperation::NextStorageKey => "next_storage_key"@,
            StorageOperation::StorageAppend => "storage_append"@,
            StorageOperation::StorageStartTransaction => "storage_start_transaction"@,
            StorageOperation::StorageRollbackTransaction => "storage_rollback_transaction"@,
            StorageOperation::StorageCommitTransaction => "storage_commit_transaction"@,
            StorageOperation::Wipe => "wipe"@,
            StorageOperation::Commit => "commit"@,
            StorageOperation::ReadWriteCount => "read_write_count"@,
            StorageOperation::ResetReadWriteCount => "reset_read_write_count"@,
            StorageOperation::GetWhitelist => "get_whitelist"@,
            StorageOperation::SetWhitelist => "set_whitelist"@,
            StorageOperation::SetOffchainStorage => "set_offchain_storage"@,
            StorageOperation::GetReadAndWrittenKeys => "get_read_and_written_keys"@,
        }
    }

    /// The operation's name on the externalities surface.
    pub fn name(self) -> (name: &'static str)
        ensures
            name@ == self.spec_name(),
    {
        match self {
            StorageOperation::Storage => "storage",
            StorageOperation::StorageHash => "storage_hash",
            StorageOperation::ChildStorageHash => "child_storage_hash",
            StorageOperation::ChildStorage => "child_storage",
            StorageOperation::KillChildStorage => "kill_child_storage",
            StorageOperation::ClearPrefix => "clear_prefix",
            StorageOperation::ClearChildPrefix => "clear_child_prefix",
            StorageOperation::PlaceStorage => "place_storage",
            StorageOperation::PlaceChildStorage => "place_child_storage",
            StorageOperation::StorageRoot => "storage_root",
            StorageOperation::ChildStorageRoot => "child_storage_root",
            StorageOperation::NextChildStorageKey => "next_child_storage_key",
            StorageOperation::NextStorageKey => "next_storage_key",
            StorageOperation::StorageAppend => "storage_append",
            StorageOperation::StorageStartTransaction => "storage_start_transaction",
            StorageOperation::StorageRollbackTransaction => "storage_rollback_transaction",
            StorageOperation::StorageCommitTransaction => "storage_commit_transaction",
            StorageOperation::Wipe => "wipe",
            StorageOperation::Commit => "commit",
            StorageOperation::ReadWriteCount => "read_write_count",
            StorageOperation::ResetReadWriteCount => "reset_read_write_count",
            StorageOperation::GetWhitelist => "get_whitelist",
            StorageOperation::SetWhitelist => "set_whitelist",
            StorageOperation::SetOffchainStorage => "set_offchain_storage",
            StorageOperation::GetReadAndWrittenKeys => "get_read_and_written_keys",
        }
    }
}

/// What the guard does with a call that reaches it.
#[derive(Clone, Debug, PartialEq, Eq)]
pub enum GuardVerdict {
    /// The process ends at once with this message. No value goes back to the caller, so
    /// executed code cannot carry on past the call.
    Fatal(String),
}

/// The message of the fatal fault that answers `operation`.
pub open spec fn denial_text(operation: StorageOperation) -> Seq<char> {
    operation.spec_name() + ": unsupported feature for parachain validation"@
}

/// The guard's answer to an operation on persistent state: a fatal fault, for every one
/// of them.
pub fn deny(operation: StorageOperation) -> (verdict: GuardVerdict)
    ensures
        verdict matches GuardVerdict::Fatal(message) && message@ == denial_text(operation),
{
    GuardVerdict::Fatal(
        String::from_str(operation.name()).concat(": unsupported feature for parachain validation"),
    )
}

/// A failure of the extension registry. Unlike an operation on persistent state, a miss
/// here is an ordinary error: the registry is wiring inside the host, not part of what
/// executed code is held to.
pub enum RegistryError {
    /// No extension is registered under this type.
    ExtensionIsNotRegistered(TypeId),
}

/// Takes the extension registered under `type_id` out of the registry.
///
/// Succeeds exactly where one was registered; the others stay as they are.
pub fn deregister_extension_by_type_id(extensions: &mut Extensions, type_id: TypeId) -> (r: Result<
    (),
    RegistryError,
>)
    ensures
        r is Ok <==> registered(*old(extensions)).contains(type_id),
        r matches Err(e) ==> e == RegistryError::ExtensionIsNotRegistered(type_id),
        registered(*final(extensions)) == registered(*old(extensions)).remove(type_id),
        !registered(*final(extensions)).contains(type_id),
{
    if remove_extension(extensions, type_id) {
        Ok(())
    } else {
        Err(RegistryError::ExtensionIsNotRegistered(type_id))
    }
}

} // verus!
