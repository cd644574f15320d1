//! Boundary buffer transfer: byte sequences crossing the enclave boundary
//! travel as opaque handles that are reclaimed exactly once.
//!
//! A handle either backs a byte sequence (it is *live*) or is the designated
//! null sentinel. Reclaiming consumes the handle by value, so the one-time
//! reclaim discipline of the boundary protocol is enforced by ownership:
//! a second reclaim of the same handle does not compile.

use vstd::prelude::*;
use vstd::slice::slice_to_vec;

verus! {

/// A buffer owned by the untrusted host whose handle has been handed to the
/// enclave side. The view is `Some` of the byte sequence for a live handle
/// and `None` for the null sentinel.
pub struct UserSpaceBuffer {
    contents: Option<Vec<u8>>,
}

impl View for UserSpaceBuffer {
    type V = Option<Seq<u8>>;

    closed spec fn view(&self) -> Option<Seq<u8>> {
        match self.contents {
            Some(v) => Some(v@),
            None => None,
        }
    }
}

impl Default for UserSpaceBuffer {
    /// The null sentinel handle: it backs no allocation.
    fn default() -> (r: Self)
        ensures
            r@ is None,
    {
        UserSpaceBuffer { contents: None }
    }
}

/// A buffer produced for the enclave as the result of a read. The default
/// value is the null sentinel, which signals a missing key.
pub struct EnclaveBuffer {
    contents: Option<Vec<u8>>,
}

impl View for EnclaveBuffer {
    type V = Option<Seq<u8>>;

    closed spec fn view(&self) -> Option<Seq<u8>> {
        match self.contents {
            Some(v) => Some(v@),
            None => None,
        }
    }
}

impl Default for EnclaveBuffer {
    /// The null sentinel handle: absence of a value, never an error.
    fn default() -> (r: Self)
        ensures
            r@ is None,
    {
        EnclaveBuffer { contents: None }
    }
}

/// What allocating a byte sequence hands across the boundary: a live handle
/// backing exactly that sequence.
pub open spec fn allocate_model(b: Seq<u8>) -> Option<Seq<u8>> {
    Some(b)
}

/// What reclaiming a handle gives back: the backed sequence of a live handle,
/// nothing for the null sentinel.
pub open spec fn reclaim_model(h: Option<Seq<u8>>) -> Option<Seq<u8>> {
    h
}

/// Copy a byte sequence from the enclave memory space into a host-owned
/// allocation and hand back a handle to it.
pub fn ocall_allocate(buffer: &[u8]) -> (r: UserSpaceBuffer)
    ensures
        r@ == allocate_model(buffer@),
{
    UserSpaceBuffer { contents: Some(slice_to_vec(buffer)) }
}

/// Take a handle as returned by `ocall_allocate` and recover the bytes inside
/// of it. Returns `None` exactly for the null sentinel. The handle is
/// consumed: it cannot be reclaimed a second time.
pub fn recover_buffer(ptr: UserSpaceBuffer) -> (r: Option<Vec<u8>>)
    ensures
        r is Some <==> reclaim_model(ptr@) is Some,
        r matches Some(v) ==> reclaim_model(ptr@) == Some(v@),
{
    ptr.contents
}

/// Copy a value produced by a storage read into a live buffer handle for the
/// enclave side.
pub fn allocate_enclave_buffer(buffer: &[u8]) -> (r: EnclaveBuffer)
    ensures
        r@ == allocate_model(buffer@),
{
    EnclaveBuffer { contents: Some(slice_to_vec(buffer)) }
}

/// Enclave-side reclaim of a read-result handle: the bytes of a live handle,
/// `None` exactly for the missing-key sentinel. Consumes the handle.
pub fn recover_enclave_buffer(ptr: EnclaveBuffer) -> (r: Option<Vec<u8>>)
    ensures
        r is Some <==> reclaim_model(ptr@) is Some,
        r matches Some(v) ==> reclaim_model(ptr@) == Some(v@),
{
    ptr.contents
}

/// Round trip of buffer transfer: for every byte sequence `b`, the empty one
/// included, reclaiming the handle allocated for `b` yields exactly `b`.
/// The second half of the discipline, that no handle is reclaimed twice, is
/// enforced by ownership: reclaiming consumes the handle.
pub proof fn lemma_buffer_round_trip(b: Seq<u8>)
    ensures
        reclaim_model(allocate_model(b)) == Some(b),
{
}

} // verus!
