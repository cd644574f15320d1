//! Error boxing: a rich host-side error value is moved onto the heap and its
//! handle is passed across the boundary, because the boundary calling
//! convention only carries scalars. The far side reconstructs the value at
//! that handle exactly once; as with buffer handles, the one-time reclaim is
//! enforced here by ownership.

use vstd::prelude::*;

verus! {

/// The kind of a domain failure reported by a storage or querier strategy.
#[derive(Clone, Copy, Debug, PartialEq, Eq, Structural)]
pub enum VmErrorKind {
    BackendUnavailable,
    SerializationFailure,
    GenericErr,
}

/// A domain error produced on the host side of the boundary. Richer than a
/// scalar status code, so it crosses the boundary boxed behind a handle.
#[derive(Debug)]
pub struct VmError {
    pub kind: VmErrorKind,
    pub msg: String,
}

impl VmError {
    /// What an error is observably: its kind and its message.
    pub open spec fn model(&self) -> (VmErrorKind, Seq<char>) {
        (self.kind, self.msg@)
    }
}

/// A boxed error handle as seen by the enclave side: `Some` of the boxed
/// error's model while an error is stored, `None` for the null handle.
pub struct UntrustedVmError {
    err: Option<Box<VmError>>,
}

impl View for UntrustedVmError {
    type V = Option<(VmErrorKind, Seq<char>)>;

    closed spec fn view(&self) -> Option<(VmErrorKind, Seq<char>)> {
        match self.err {
            Some(e) => Some(e.model()),
            None => None,
        }
    }
}

impl Default for UntrustedVmError {
    /// The null error handle: no error has been stored.
    fn default() -> (r: Self)
        ensures
            r@ is None,
    {
        UntrustedVmError { err: None }
    }
}

/// What boxing an error hands across the boundary: a handle holding exactly
/// that error.
pub open spec fn box_error_model(e: (VmErrorKind, Seq<char>)) -> Option<(VmErrorKind, Seq<char>)> {
    Some(e)
}

/// What reconstructing an error handle gives back: the boxed error of a live
/// handle, nothing for the null handle.
pub open spec fn unbox_error_model(h: Option<(VmErrorKind, Seq<char>)>) -> Option<
    (VmErrorKind, Seq<char>),
> {
    h
}

/// Box the error and store its handle in the out-parameter. Ownership of the
/// error transfers to the far side, which must reconstruct it exactly once.
pub fn store_vm_error(vm_err: VmError, location: &mut UntrustedVmError)
    ensures
        final(location)@ == box_error_model(vm_err.model()),
{
    location.err = Some(Box::new(vm_err));
}

/// Far-side reconstruction of a boxed error: takes back ownership of the
/// error stored behind the handle. Returns `None` exactly for the null
/// handle. Consumes the handle, so no second reconstruction is possible.
pub fn recover_vm_error(handle: UntrustedVmError) -> (r: Option<VmError>)
    ensures
        r is Some <==> unbox_error_model(handle@) is Some,
        r matches Some(e) ==> unbox_error_model(handle@) == Some(e.model()),
{
    match handle.err {
        Some(boxed) => Some(*boxed),
        None => None,
    }
}

/// Round trip of error boxing: for every domain error, boxing it and then
/// reconstructing the value at its handle yields an error of the same kind
/// and the same message. The matching leak-freedom half, exactly one
/// reconstruction, is enforced by ownership: reconstruction consumes the
/// handle.
pub proof fn lemma_error_boxing_round_trip(e: (VmErrorKind, Seq<char>))
    ensures
        unbox_error_model(box_error_model(e)) == Some(e),
{
}

} // verus!
