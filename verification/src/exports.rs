//! Boundary call handlers: the three storage operations the enclave can
//! invoke, and the settlement of each dispatched call into the boundary's
//! three-valued outcome.
//!
//! Ordinary error propagation cannot cross the trust boundary, so every call
//! reports one of three outcomes: `Success` with its gas cost (and, for
//! reads, a value handle), `Failure` with a boxed error handle, or `Panic`
//! when the host-side implementation itself misbehaved. The embedding layer
//! runs each dispatched call under an unwind guard and records what it
//! observed as a `DispatchOutcome`; the settlement functions here turn that
//! observation into the outcome and the out-parameter writes, so a contained
//! panic degrades to the most conservative outcome, with no gas written and
//! no payload attached.

use vstd::prelude::*;
use crate::buffers::{allocate_enclave_buffer, EnclaveBuffer};
use crate::context::FullContext;
use crate::errors::{store_vm_error, UntrustedVmError, VmError};
use crate::storage::{Querier, Storage};

verus! {

/// The outcome discriminant of a boundary call, the call's only return
/// value; everything richer travels through out-parameters.
#[derive(Clone, Copy, Debug, PartialEq, Eq, Structural)]
pub enum OcallReturn {
    Success,
    Failure,
    Panic,
}

/// What the unwind guard around a dispatched call observed: either the
/// call's own result, or that the implementation panicked and the unwind was
/// contained at the boundary.
pub enum DispatchOutcome<T> {
    Completed(Result<T, VmError>),
    Panicked,
}

/// Settle a dispatched read. A found value is handed out as a live buffer
/// handle; a missing value is signalled by the null sentinel, never reported
/// as a failure. Gas is written only on success, the boxed error only on
/// failure, and a contained panic writes nothing at all.
pub fn settle_read_call(
    outcome: DispatchOutcome<(Option<Vec<u8>>, u64)>,
    vm_error: &mut UntrustedVmError,
    gas_used: &mut u64,
    value: &mut EnclaveBuffer,
) -> (r: OcallReturn)
    ensures
        r == OcallReturn::Panic <==> outcome is Panicked,
        outcome is Panicked ==> *final(vm_error) == *old(vm_error) && *final(gas_used) == *old(
            gas_used,
        ) && *final(value) == *old(value),
        outcome matches DispatchOutcome::Completed(Ok((v, gas))) ==> {
            &&& r == OcallReturn::Success
            &&& *final(gas_used) == gas
            &&& *final(vm_error) == *old(vm_error)
            &&& final(value)@ == match v {
                Some(found) => Some(found@),
                None => None::<Seq<u8>>,
            }
        },
        outcome matches DispatchOutcome::Completed(Err(e)) ==> {
            &&& r == OcallReturn::Failure
            &&& final(vm_error)@ == Some(e.model())
            &&& *final(gas_used) == *old(gas_used)
            &&& *final(value) == *old(value)
        },
{
    match outcome {
        DispatchOutcome::Panicked => OcallReturn::Panic,
        DispatchOutcome::Completed(result) => match result {
            Ok((found, gas_cost)) => {
                *gas_used = gas_cost;
                match found {
                    Some(bytes) => {
                        *value = allocate_enclave_buffer(bytes.as_slice());
                    },
                    None => {
                        *value = EnclaveBuffer::default();
                    },
                }
                OcallReturn::Success
            },
            Err(err) => {
                store_vm_error(err, vm_error);
                OcallReturn::Failure
            },
        },
    }
}

/// Settle a dispatched write or removal, which report gas but produce no
/// buffer. Gas is written only on success, the boxed error only on failure,
/// and a contained panic writes nothing at all.
pub fn settle_status_call(
    outcome: DispatchOutcome<u64>,
    vm_error: &mut UntrustedVmError,
    gas_used: &mut u64,
) -> (r: OcallReturn)
    ensures
        r == OcallReturn::Panic <==> outcome is Panicked,
        outcome is Panicked ==> *final(vm_error) == *old(vm_error) && *final(gas_used) == *old(
            gas_used,
        ),
        outcome matches DispatchOutcome::Completed(Ok(gas)) ==> {
            &&& r == OcallReturn::Success
            &&& *final(gas_used) == gas
            &&& *final(vm_error) == *old(vm_error)
        },
        outcome matches DispatchOutcome::Completed(Err(e)) ==> {
            &&& r == OcallReturn::Failure
            &&& final(vm_error)@ == Some(e.model())
            &&& *final(gas_used) == *old(gas_used)
        },
{
    match outcome {
        DispatchOutcome::Panicked => OcallReturn::Panic,
        DispatchOutcome::Completed(result) => match result {
            Ok(gas_cost) => {
                *gas_used = gas_cost;
                OcallReturn::Success
            },
            Err(err) => {
                store_vm_error(err, vm_error);
                OcallReturn::Failure
            },
        },
    }
}

/// The read operation the context's dispatch binding reaches: a lookup in
/// the context's own storage strategy.
fn ocall_read_db_impl<S: Storage, Q: Querier>(context: &FullContext<S, Q>, key: &[u8]) -> (r:
    Result<(Option<Vec<u8>>, u64), VmError>)
    ensures
        context.storage.never_fails() ==> r is Ok,
        r matches Ok((v, gas)) ==> {
            &&& gas == context.storage.gas_of_get(key@)
            &&& match v {
                Some(value) => context.storage.contents().contains_key(key@) && value@
                    == context.storage.contents()[key@],
                None => !context.storage.contents().contains_key(key@),
            }
        },
{
    context.storage.get(key)
}

/// The removal operation the context's dispatch binding reaches.
fn ocall_remove_db_impl<S: Storage, Q: Querier>(context: &mut FullContext<S, Q>, key: &[u8]) -> (r:
    Result<u64, VmError>)
    ensures
        final(context).querier == old(context).querier,
        final(context).storage.never_fails() == old(context).storage.never_fails(),
        old(context).storage.never_fails() ==> r is Ok,
        r matches Ok(gas) ==> {
            &&& gas == old(context).storage.gas_of_remove(key@)
            &&& final(context).storage.contents() == old(context).storage.contents().remove(key@)
        },
        r is Err ==> final(context).storage.contents() == old(context).storage.contents(),
{
    context.storage.remove(key)
}

/// The write operation the context's dispatch binding reaches.
fn ocall_write_db_impl<S: Storage, Q: Querier>(
    context: &mut FullContext<S, Q>,
    key: &[u8],
    value: &[u8],
) -> (r: Result<u64, VmError>)
    ensures
        final(context).querier == old(context).querier,
        final(context).storage.never_fails() == old(context).storage.never_fails(),
        old(context).storage.never_fails() ==> r is Ok,
        r matches Ok(gas) ==> {
            &&& gas == old(context).storage.gas_of_set(key@, value@)
            &&& final(context).storage.contents() == old(context).storage.contents().insert(
                key@,
                value@,
            )
        },
        r is Err ==> final(context).storage.contents() == old(context).storage.contents(),
{
    context.storage.set(key, value)
}

/// Read a key from the contract's key-value store. Never reports `Panic`:
/// the dispatched call completes without unwinding. A missing key is a
/// success whose value handle is the null sentinel; an infallible strategy
/// makes success certain.
pub fn ocall_read_db<S: Storage, Q: Querier>(
    context: &FullContext<S, Q>,
    vm_error: &mut UntrustedVmError,
    gas_used: &mut u64,
    value: &mut EnclaveBuffer,
    key: &[u8],
) -> (r: OcallReturn)
    ensures
        r != OcallReturn::Panic,
        context.storage.never_fails() ==> r == OcallReturn::Success,
        r == OcallReturn::Success ==> {
            &&& *final(gas_used) == context.storage.gas_of_get(key@)
            &&& *final(vm_error) == *old(vm_error)
            &&& final(value)@ == if context.storage.contents().contains_key(key@) {
                Some(context.storage.contents()[key@])
            } else {
                None::<Seq<u8>>
            }
        },
        r == OcallReturn::Failure ==> {
            &&& final(vm_error)@ is Some
            &&& *final(gas_used) == *old(gas_used)
            &&& *final(value) == *old(value)
        },
{
    let result = ocall_read_db_impl(context, key);
    settle_read_call(DispatchOutcome::Completed(result), vm_error, gas_used, value)
}

/// Remove a key from the contract's key-value store. Never reports `Panic`,
/// and with an infallible strategy always succeeds, whether or not the key
/// was present: a missing key is not a boundary failure.
pub fn ocall_remove_db<S: Storage, Q: Querier>(
    context: &mut FullContext<S, Q>,
    vm_error: &mut UntrustedVmError,
    gas_used: &mut u64,
    key: &[u8],
) -> (r: OcallReturn)
    ensures
        r != OcallReturn::Panic,
        old(context).storage.never_fails() ==> r == OcallReturn::Success,
        final(context).storage.never_fails() == old(context).storage.never_fails(),
        final(context).querier == old(context).querier,
        r == OcallReturn::Success ==> {
            &&& final(context).storage.contents() == old(context).storage.contents().remove(key@)
            &&& *final(gas_used) == old(context).storage.gas_of_remove(key@)
            &&& *final(vm_error) == *old(vm_error)
        },
        r == OcallReturn::Failure ==> {
            &&& final(context).storage.contents() == old(context).storage.contents()
            &&& final(vm_error)@ is Some
            &&& *final(gas_used) == *old(gas_used)
        },
{
    let result = ocall_remove_db_impl(context, key);
    settle_status_call(DispatchOutcome::Completed(result), vm_error, gas_used)
}

/// Write a value to the contract's key-value store. Never reports `Panic`,
/// and with an infallible strategy always succeeds, leaving the store
/// holding the written binding.
pub fn ocall_write_db<S: Storage, Q: Querier>(
    context: &mut FullContext<S, Q>,
    vm_error: &mut UntrustedVmError,
    gas_used: &mut u64,
    key: &[u8],
    value: &[u8],
) -> (r: OcallReturn)
    ensures
        r != OcallReturn::Panic,
        old(context).storage.never_fails() ==> r == OcallReturn::Success,
        final(context).storage.never_fails() == old(context).storage.never_fails(),
        final(context).querier == old(context).querier,
        r == OcallReturn::Success ==> {
            &&& final(context).storage.contents() == old(context).storage.contents().insert(
                key@,
                value@,
            )
            &&& *final(gas_used) == old(context).storage.gas_of_set(key@, value@)
            &&& *final(vm_error) == *old(vm_error)
        },
        r == OcallReturn::Failure ==> {
            &&& final(context).storage.contents() == old(context).storage.contents()
            &&& final(vm_error)@ is Some
            &&& *final(gas_used) == *old(gas_used)
        },
{
    let result = ocall_write_db_impl(context, key, value);
    settle_status_call(DispatchOutcome::Completed(result), vm_error, gas_used)
}

/// Round trip of write-then-read: a write that reports `Success` leaves the
/// store's contents with the written binding inserted, and a read of the
/// same key against those contents finds exactly the written value. Stated
/// over the contents map that the handlers' contracts are phrased in.
pub proof fn lemma_write_then_read(m: Map<Seq<u8>, Seq<u8>>, key: Seq<u8>, value: Seq<u8>)
    ensures
        (if m.insert(key, value).contains_key(key) {
            Some(m.insert(key, value)[key])
        } else {
            None::<Seq<u8>>
        }) == Some(value),
{
}

/// Removal at the boundary is total: removing an absent key leaves the
/// contents untouched, and the boundary still reports `Success` for it, as
/// `ocall_remove_db`'s contract promises with no condition on the key being
/// present.
pub proof fn lemma_remove_absent_key(m: Map<Seq<u8>, Seq<u8>>, key: Seq<u8>)
    requires
        !m.contains_key(key),
    ensures
        m.remove(key) == m,
{
    assert(m.remove(key) =~= m);
}

} // verus!
