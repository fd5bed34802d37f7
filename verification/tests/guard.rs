use pvf_executor::guard::capability_groups;
use pvf_executor::guard::deny;
use pvf_executor::guard::deregister_extension_by_type_id;
use pvf_executor::guard::CapabilityGroup;
use pvf_executor::guard::GuardVerdict;
use pvf_executor::guard::RegistryError;
use pvf_executor::guard::StorageOperation;
use sp_externalities::Extension;
use sp_externalities::Extensions;
use std::any::Any;
use std::any::TypeId;

struct VersionHelper(u32);

impl Extension for VersionHelper {
    fn as_mut_any(&mut self) -> &mut dyn Any {
        self
    }

    fn type_id(&self) -> TypeId {
        Any::type_id(self)
    }
}

struct OtherHelper;

impl Extension for OtherHelper {
    fn as_mut_any(&mut self) -> &mut dyn Any {
        self
    }

    fn type_id(&self) -> TypeId {
        Any::type_id(self)
    }
}

fn all_storage_operations() -> Vec<StorageOperation> {
    vec![
        StorageOperation::Storage,
        StorageOperation::StorageHash,
        StorageOperation::ChildStorageHash,
        StorageOperation::ChildStorage,
        StorageOperation::KillChildStorage,
        StorageOperation::ClearPrefix,
        StorageOperation::ClearChildPrefix,
        StorageOperation::PlaceStorage,
        StorageOperation::PlaceChildStorage,
        StorageOperation::StorageRoot,
        StorageOperation::ChildStorageRoot,
        StorageOperation::NextChildStorageKey,
        StorageOperation::NextStorageKey,
        StorageOperation::StorageAppend,
        StorageOperation::StorageStartTransaction,
        StorageOperation::StorageRollbackTransaction,
        StorageOperation::StorageCommitTransaction,
        StorageOperation::Wipe,
        StorageOperation::Commit,
        StorageOperation::ReadWriteCount,
        StorageOperation::ResetReadWriteCount,
        StorageOperation::GetWhitelist,
        StorageOperation::SetWhitelist,
        StorageOperation::SetOffchainStorage,
        StorageOperation::GetReadAndWrittenKeys,
    ]
}

#[test]
fn six_capability_groups_are_exposed() {
    assert_eq!(
        capability_groups(),
        vec![
            CapabilityGroup::Misc,
            CapabilityGroup::Crypto,
            CapabilityGroup::Hashing,
            CapabilityGroup::Allocator,
            CapabilityGroup::Logging,
            CapabilityGroup::Trie,
        ]
    );
}

#[test]
fn a_storage_read_is_answered_with_a_fatal_fault() {
    assert_eq!(
        deny(StorageOperation::Storage),
        GuardVerdict::Fatal("storage: unsupported feature for parachain validation".to_string())
    );
}

#[test]
fn every_storage_operation_is_fatal_under_its_own_name() {
    let operations = all_storage_operations();
    assert_eq!(operations.len(), 25);
    for operation in operations {
        let GuardVerdict::Fatal(message) = deny(operation);
        assert_eq!(
            message,
            format!("{}: unsupported feature for parachain validation", operation.name())
        );
    }
    assert_eq!(StorageOperation::KillChildStorage.name(), "kill_child_storage");
    assert_eq!(StorageOperation::StorageRollbackTransaction.name(), "storage_rollback_transaction");
    assert_eq!(StorageOperation::GetReadAndWrittenKeys.name(), "get_read_and_written_keys");
    assert_eq!(StorageOperation::SetOffchainStorage.name(), "set_offchain_storage");
}

#[test]
fn storage_operation_names_are_all_different() {
    let operations = all_storage_operations();
    for (i, a) in operations.iter().enumerate() {
        for b in operations.iter().skip(i + 1) {
            assert_ne!(a.name(), b.name());
        }
    }
}

#[test]
fn deregistering_a_registered_extension_succeeds_once() {
    let mut extensions = Extensions::new();
    extensions.register(VersionHelper(7));
    let id = TypeId::of::<VersionHelper>();
    assert!(extensions.get_mut(id).is_some());
    assert!(deregister_extension_by_type_id(&mut extensions, id).is_ok());
    assert!(extensions.get_mut(id).is_none());
    match deregister_extension_by_type_id(&mut extensions, id) {
        Err(RegistryError::ExtensionIsNotRegistered(missing)) => assert_eq!(missing, id),
        Ok(()) => panic!("nothing is registered any more"),
    }
}

#[test]
fn deregistering_leaves_the_other_extensions() {
    let mut extensions = Extensions::new();
    extensions.register(VersionHelper(1));
    extensions.register(OtherHelper);
    let other = TypeId::of::<OtherHelper>();
    assert!(deregister_extension_by_type_id(&mut extensions, other).is_ok());
    let kept = extensions.get_mut(TypeId::of::<VersionHelper>()).expect("still registered");
    assert_eq!(kept.downcast_mut::<VersionHelper>().expect("same type").0, 1);
}

#[test]
fn deregistering_from_an_empty_registry_is_an_error_not_a_panic() {
    let mut extensions = Extensions::new();
    let id = TypeId::of::<OtherHelper>();
    assert!(matches!(
        deregister_extension_by_type_id(&mut extensions, id),
        Err(RegistryError::ExtensionIsNotRegistered(_))
    ));
}
