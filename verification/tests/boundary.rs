use sgx_vm::buffers::{
    ocall_allocate, recover_buffer, recover_enclave_buffer, EnclaveBuffer, UserSpaceBuffer,
};
use sgx_vm::context::FullContext;
use sgx_vm::errors::{recover_vm_error, store_vm_error, UntrustedVmError, VmError, VmErrorKind};
use sgx_vm::exports::{
    ocall_read_db, ocall_remove_db, ocall_write_db, settle_read_call, settle_status_call,
    DispatchOutcome, OcallReturn,
};
use sgx_vm::storage::{FailingStorage, MemStorage, MockQuerier, Storage};

#[test]
fn buffer_round_trip() {
    let handle = ocall_allocate(b"boundary bytes");
    assert_eq!(recover_buffer(handle), Some(b"boundary bytes".to_vec()));
}

#[test]
fn buffer_round_trip_empty() {
    let handle = ocall_allocate(b"");
    assert_eq!(recover_buffer(handle), Some(Vec::new()));
}

#[test]
fn null_buffer_reclaims_to_nothing() {
    assert_eq!(recover_buffer(UserSpaceBuffer::default()), None);
    assert_eq!(recover_enclave_buffer(EnclaveBuffer::default()), None);
}

#[test]
fn missing_key_is_success_with_sentinel() {
    let context = FullContext::new(MemStorage::new(), MockQuerier);
    let mut vm_error = UntrustedVmError::default();
    let mut gas_used: u64 = 0;
    let mut value = EnclaveBuffer::default();
    let outcome = ocall_read_db(&context, &mut vm_error, &mut gas_used, &mut value, b"missing");
    assert_eq!(outcome, OcallReturn::Success);
    assert_eq!(gas_used, 7);
    assert_eq!(recover_enclave_buffer(value), None);
    assert!(recover_vm_error(vm_error).is_none());
}

#[test]
fn write_then_read_round_trip() {
    let mut context = FullContext::new(MemStorage::new(), MockQuerier);
    let mut vm_error = UntrustedVmError::default();
    let mut gas_used: u64 = 0;
    let outcome = ocall_write_db(&mut context, &mut vm_error, &mut gas_used, b"k", b"v");
    assert_eq!(outcome, OcallReturn::Success);
    assert_eq!(gas_used, 1);

    let mut value = EnclaveBuffer::default();
    let outcome = ocall_read_db(&context, &mut vm_error, &mut gas_used, &mut value, b"k");
    assert_eq!(outcome, OcallReturn::Success);
    assert_eq!(gas_used, 1);
    assert_eq!(recover_enclave_buffer(value), Some(b"v".to_vec()));
}

#[test]
fn last_write_wins() {
    let mut context = FullContext::new(MemStorage::new(), MockQuerier);
    let mut vm_error = UntrustedVmError::default();
    let mut gas_used: u64 = 0;
    ocall_write_db(&mut context, &mut vm_error, &mut gas_used, b"key", b"first");
    ocall_write_db(&mut context, &mut vm_error, &mut gas_used, b"key", b"second");
    assert_eq!(gas_used, 6);

    let mut value = EnclaveBuffer::default();
    let outcome = ocall_read_db(&context, &mut vm_error, &mut gas_used, &mut value, b"key");
    assert_eq!(outcome, OcallReturn::Success);
    assert_eq!(recover_enclave_buffer(value), Some(b"second".to_vec()));
}

#[test]
fn remove_missing_key_reports_success() {
    let mut context = FullContext::new(MemStorage::new(), MockQuerier);
    let mut vm_error = UntrustedVmError::default();
    let mut gas_used: u64 = 0;
    let outcome = ocall_remove_db(&mut context, &mut vm_error, &mut gas_used, b"nope");
    assert_eq!(outcome, OcallReturn::Success);
    assert_eq!(gas_used, 4);
    assert!(recover_vm_error(vm_error).is_none());
}

#[test]
fn remove_erases_written_key() {
    let mut context = FullContext::new(MemStorage::new(), MockQuerier);
    let mut vm_error = UntrustedVmError::default();
    let mut gas_used: u64 = 0;
    ocall_write_db(&mut context, &mut vm_error, &mut gas_used, b"k", b"v");
    let outcome = ocall_remove_db(&mut context, &mut vm_error, &mut gas_used, b"k");
    assert_eq!(outcome, OcallReturn::Success);
    assert_eq!(gas_used, 1);

    let mut value = EnclaveBuffer::default();
    let outcome = ocall_read_db(&context, &mut vm_error, &mut gas_used, &mut value, b"k");
    assert_eq!(outcome, OcallReturn::Success);
    assert_eq!(recover_enclave_buffer(value), None);
}

#[test]
fn contained_panic_on_write_degrades_to_panic_outcome() {
    let mut vm_error = UntrustedVmError::default();
    let mut gas_used: u64 = 123;
    let outcome = settle_status_call(DispatchOutcome::Panicked, &mut vm_error, &mut gas_used);
    assert_eq!(outcome, OcallReturn::Panic);
    // Nothing was written: the stale gas value is not authoritative and no
    // error was boxed.
    assert_eq!(gas_used, 123);
    assert!(recover_vm_error(vm_error).is_none());
}

#[test]
fn contained_panic_on_read_degrades_to_panic_outcome() {
    let mut vm_error = UntrustedVmError::default();
    let mut gas_used: u64 = 55;
    let mut value = EnclaveBuffer::default();
    let outcome =
        settle_read_call(DispatchOutcome::Panicked, &mut vm_error, &mut gas_used, &mut value);
    assert_eq!(outcome, OcallReturn::Panic);
    assert_eq!(gas_used, 55);
    assert_eq!(recover_enclave_buffer(value), None);
    assert!(recover_vm_error(vm_error).is_none());
}

#[test]
fn error_boxing_round_trip() {
    let err = VmError {
        kind: VmErrorKind::SerializationFailure,
        msg: String::from("value is not canonical"),
    };
    let mut handle = UntrustedVmError::default();
    store_vm_error(err, &mut handle);
    let back = recover_vm_error(handle).expect("a boxed error must be recoverable");
    assert_eq!(back.kind, VmErrorKind::SerializationFailure);
    assert_eq!(back.msg, "value is not canonical");
}

#[test]
fn failing_backend_write_reports_failure() {
    let mut context = FullContext::new(FailingStorage, MockQuerier);
    let mut vm_error = UntrustedVmError::default();
    let mut gas_used: u64 = 77;
    let outcome = ocall_write_db(&mut context, &mut vm_error, &mut gas_used, b"k", b"v");
    assert_eq!(outcome, OcallReturn::Failure);
    // Gas is untouched on failure; the boxed error carries the backend's
    // report.
    assert_eq!(gas_used, 77);
    let err = recover_vm_error(vm_error).expect("a failure must box its error");
    assert_eq!(err.kind, VmErrorKind::BackendUnavailable);
    assert_eq!(err.msg, "storage backend unavailable");
}

#[test]
fn failing_backend_read_reports_failure() {
    let context = FullContext::new(FailingStorage, MockQuerier);
    let mut vm_error = UntrustedVmError::default();
    let mut gas_used: u64 = 9;
    let mut value = EnclaveBuffer::default();
    let outcome = ocall_read_db(&context, &mut vm_error, &mut gas_used, &mut value, b"k");
    assert_eq!(outcome, OcallReturn::Failure);
    assert_eq!(gas_used, 9);
    assert_eq!(recover_enclave_buffer(value), None);
    let err = recover_vm_error(vm_error).expect("a failure must box its error");
    assert_eq!(err.kind, VmErrorKind::BackendUnavailable);
}

#[test]
fn dispatch_reaches_the_bound_implementations() {
    // Two contexts over different concrete types are live at once; each call
    // reaches exactly the implementation pair its context was built for.
    let mut mem_context = FullContext::new(MemStorage::new(), MockQuerier);
    let mut failing_context = FullContext::new(FailingStorage, MockQuerier);
    let mut vm_error = UntrustedVmError::default();
    let mut gas_used: u64 = 0;

    let outcome = ocall_write_db(&mut mem_context, &mut vm_error, &mut gas_used, b"k", b"v");
    assert_eq!(outcome, OcallReturn::Success);

    let outcome = ocall_write_db(&mut failing_context, &mut vm_error, &mut gas_used, b"k", b"v");
    assert_eq!(outcome, OcallReturn::Failure);

    let mut value = EnclaveBuffer::default();
    let outcome = ocall_read_db(&mem_context, &mut vm_error, &mut gas_used, &mut value, b"k");
    assert_eq!(outcome, OcallReturn::Success);
    assert_eq!(recover_enclave_buffer(value), Some(b"v".to_vec()));
}

#[test]
fn teardown_hands_the_storage_back() {
    let mut context = FullContext::new(MemStorage::new(), MockQuerier);
    let mut vm_error = UntrustedVmError::default();
    let mut gas_used: u64 = 0;
    ocall_write_db(&mut context, &mut vm_error, &mut gas_used, b"k", b"kept");

    let storage = context.into_storage();
    let (found, gas) = storage.get(b"k").expect("the in-memory strategy never fails");
    assert_eq!(found, Some(b"kept".to_vec()));
    assert_eq!(gas, 1);
}

#[test]
fn generic_error_kind_round_trips() {
    let err = VmError { kind: VmErrorKind::GenericErr, msg: String::from("unexpected") };
    let mut handle = UntrustedVmError::default();
    store_vm_error(err, &mut handle);
    let back = recover_vm_error(handle).unwrap();
    assert_eq!(back.kind, VmErrorKind::GenericErr);
    assert_eq!(back.msg, "unexpected");
}
