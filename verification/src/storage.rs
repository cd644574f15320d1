//! Pluggable storage and querier strategies.
//!
//! The boundary dispatches every storage operation into a strategy supplied
//! by the embedder. The `Storage` trait states the contract every strategy
//! must meet: each operation, when it succeeds, reports the gas its own
//! schedule assigns and leaves the store's logical contents exactly as the
//! operation demands. A strategy whose `never_fails` predicate holds is
//! additionally bound to succeed on every input.
//!
//! `MemStorage` is a verified in-memory strategy: an append-style entry log
//! whose logical contents are the map obtained by letting later entries win.
//! `FailingStorage` is a strategy that reports a domain failure on every
//! operation, exercising the boundary's failure path.

use vstd::prelude::*;
use vstd::string::StringExecFns;
use vstd::slice::slice_to_vec;
use crate::errors::{VmError, VmErrorKind};

verus! {

/// The querier capability bound alongside storage at call-context
/// construction. Its operations are dispatched by the same mechanism but lie
/// outside this layer's scope, so the trait only marks a type as usable in
/// that slot.
pub trait Querier {
}

/// A querier that answers nothing; it only occupies the querier slot of a
/// call context.
pub struct MockQuerier;

impl Querier for MockQuerier {
}

/// A key-value storage strategy as the boundary consumes it.
pub trait Storage: Sized {
    /// The logical contents of the store: the map from keys to values.
    spec fn contents(&self) -> Map<Seq<u8>, Seq<u8>>;

    /// Whether this strategy is bound to succeed on every operation.
    spec fn never_fails(&self) -> bool;

    /// The gas this strategy's schedule assigns to a read of `key`.
    spec fn gas_of_get(&self, key: Seq<u8>) -> u64;

    /// The gas this strategy's schedule assigns to writing `value` under
    /// `key`.
    spec fn gas_of_set(&self, key: Seq<u8>, value: Seq<u8>) -> u64;

    /// The gas this strategy's schedule assigns to removing `key`.
    spec fn gas_of_remove(&self, key: Seq<u8>) -> u64;

    /// Look up `key`. On success, the optional value is exactly the store's
    /// entry for that key: absence of an entry is reported as `None`, never
    /// as an error.
    fn get(&self, key: &[u8]) -> (r: Result<(Option<Vec<u8>>, u64), VmError>)
        ensures
            self.never_fails() ==> r is Ok,
            r matches Ok((v, gas)) ==> {
                &&& gas == self.gas_of_get(key@)
                &&& match v {
                    Some(value) => self.contents().contains_key(key@) && value@
                        == self.contents()[key@],
                    None => !self.contents().contains_key(key@),
                }
            },
    ;

    /// Store `value` under `key`. On success the logical contents are the
    /// old contents with that binding inserted.
    fn set(&mut self, key: &[u8], value: &[u8]) -> (r: Result<u64, VmError>)
        ensures
            old(self).never_fails() ==> r is Ok,
            final(self).never_fails() == old(self).never_fails(),
            r matches Ok(gas) ==> {
                &&& gas == old(self).gas_of_set(key@, value@)
                &&& final(self).contents() == old(self).contents().insert(key@, value@)
            },
            r is Err ==> final(self).contents() == old(self).contents(),
    ;

    /// Remove the entry under `key`, if any. On success the logical contents
    /// are the old contents with that key removed; a missing key is not a
    /// failure.
    fn remove(&mut self, key: &[u8]) -> (r: Result<u64, VmError>)
        ensures
            old(self).never_fails() ==> r is Ok,
            final(self).never_fails() == old(self).never_fails(),
            r matches Ok(gas) ==> {
                &&& gas == old(self).gas_of_remove(key@)
                &&& final(self).contents() == old(self).contents().remove(key@)
            },
            r is Err ==> final(self).contents() == old(self).contents(),
    ;
}

/// Byte-sequence equality on slices.
fn bytes_eq(a: &[u8], b: &[u8]) -> (r: bool)
    ensures
        r == (a@ == b@),
{
    if a.len() != b.len() {
        return false;
    }
    let mut i: usize = 0;
    while i < a.len()
        invariant
            i <= a.len(),
            a@.len() == b@.len(),
            forall|j: int| 0 <= j < i ==> a@[j] == b@[j],
        decreases a.len() - i,
    {
        if a[i] != b[i] {
            return false;
        }
        i = i + 1;
    }
    proof {
        assert(a@ =~= b@);
    }
    true
}

/// The logical contents of an entry log: later entries shadow earlier ones
/// with the same key.
pub open spec fn entries_map(s: Seq<(Vec<u8>, Vec<u8>)>) -> Map<Seq<u8>, Seq<u8>>
    decreases s.len(),
{
    if s.len() == 0 {
        Map::empty()
    } else {
        entries_map(s.drop_last()).insert(s.last().0@, s.last().1@)
    }
}

/// Appending an entry binds its key to its value and disturbs nothing else.
proof fn lemma_entries_map_push(s: Seq<(Vec<u8>, Vec<u8>)>, e: (Vec<u8>, Vec<u8>))
    ensures
        entries_map(s.push(e)) == entries_map(s).insert(e.0@, e.1@),
{
    assert(s.push(e).drop_last() =~= s);
    assert(s.push(e).last() == e);
}

/// An entry whose key differs from `k` neither adds nor changes the binding
/// of `k`.
proof fn lemma_entries_map_skip_last(s: Seq<(Vec<u8>, Vec<u8>)>, k: Seq<u8>)
    requires
        s.len() > 0,
        s.last().0@ != k,
    ensures
        entries_map(s).contains_key(k) == entries_map(s.drop_last()).contains_key(k),
        entries_map(s).contains_key(k) ==> entries_map(s)[k] == entries_map(s.drop_last())[k],
{
}

/// A verified in-memory storage strategy: an entry log read with
/// later-entry-wins semantics. Its gas schedule charges the key length for
/// reads and removals and the value length for writes, and it never fails.
pub struct MemStorage {
    entries: Vec<(Vec<u8>, Vec<u8>)>,
}

impl MemStorage {
    /// An empty store.
    pub fn new() -> (r: Self)
        ensures
            r.contents() == Map::<Seq<u8>, Seq<u8>>::empty(),
            r.never_fails(),
    {
        MemStorage { entries: Vec::new() }
    }
}

/// A copy of the entry log without any entry for `key`.
fn without_key(entries: &Vec<(Vec<u8>, Vec<u8>)>, key: &[u8]) -> (out: Vec<(Vec<u8>, Vec<u8>)>)
    ensures
        entries_map(out@) == entries_map(entries@).remove(key@),
{
    let mut out: Vec<(Vec<u8>, Vec<u8>)> = Vec::new();
    let mut i: usize = 0;
    proof {
        assert(entries@.take(0) =~= Seq::<(Vec<u8>, Vec<u8>)>::empty());
        assert(entries_map(out@) =~= entries_map(entries@.take(0)).remove(key@));
    }
    while i < entries.len()
        invariant
            i <= entries.len(),
            entries_map(out@) == entries_map(entries@.take(i as int)).remove(key@),
        decreases entries.len() - i,
    {
        let ghost prefix = entries@.take(i as int);
        let ghost entry = entries@[i as int];
        proof {
            assert(entries@.take(i + 1).drop_last() =~= prefix);
            assert(entries@.take(i + 1).last() == entry);
            assert(entries_map(entries@.take(i + 1)) == entries_map(prefix).insert(
                entry.0@,
                entry.1@,
            ));
        }
        if bytes_eq(entries[i].0.as_slice(), key) {
            proof {
                assert(entries_map(prefix).insert(entry.0@, entry.1@).remove(key@) =~= entries_map(
                    prefix,
                ).remove(key@));
            }
        } else {
            let ghost out_before = out@;
            let copied_key = slice_to_vec(entries[i].0.as_slice());
            let copied_value = slice_to_vec(entries[i].1.as_slice());
            out.push((copied_key, copied_value));
            proof {
                lemma_entries_map_push(out_before, (copied_key, copied_value));
                assert(entries_map(prefix).insert(entry.0@, entry.1@).remove(key@)
                    =~= entries_map(prefix).remove(key@).insert(entry.0@, entry.1@));
            }
        }
        i = i + 1;
    }
    proof {
        assert(entries@.take(entries@.len() as int) =~= entries@);
    }
    out
}

impl Storage for MemStorage {
    closed spec fn contents(&self) -> Map<Seq<u8>, Seq<u8>> {
        entries_map(self.entries@)
    }

    open spec fn never_fails(&self) -> bool {
        true
    }

    open spec fn gas_of_get(&self, key: Seq<u8>) -> u64 {
        key.len() as u64
    }

    open spec fn gas_of_set(&self, key: Seq<u8>, value: Seq<u8>) -> u64 {
        value.len() as u64
    }

    open spec fn gas_of_remove(&self, key: Seq<u8>) -> u64 {
        key.len() as u64
    }

    fn get(&self, key: &[u8]) -> (r: Result<(Option<Vec<u8>>, u64), VmError>) {
        let mut i: usize = self.entries.len();
        proof {
            assert(self.entries@.take(i as int) =~= self.entries@);
        }
        while i > 0
            invariant
                i <= self.entries.len(),
                entries_map(self.entries@).contains_key(key@) == entries_map(
                    self.entries@.take(i as int),
                ).contains_key(key@),
                entries_map(self.entries@).contains_key(key@) ==> entries_map(
                    self.entries@.take(i as int),
                )[key@] == entries_map(self.entries@)[key@],
            decreases i,
        {
            i = i - 1;
            let ghost checked = self.entries@.take(i + 1);
            proof {
                assert(checked.drop_last() =~= self.entries@.take(i as int));
                assert(checked.last() == self.entries@[i as int]);
            }
            if bytes_eq(self.entries[i].0.as_slice(), key) {
                let found = slice_to_vec(self.entries[i].1.as_slice());
                return Ok((Some(found), key.len() as u64));
            }
            proof {
                lemma_entries_map_skip_last(checked, key@);
            }
        }
        proof {
            assert(self.entries@.take(0) =~= Seq::<(Vec<u8>, Vec<u8>)>::empty());
        }
        Ok((None, key.len() as u64))
    }

    fn set(&mut self, key: &[u8], value: &[u8]) -> (r: Result<u64, VmError>) {
        let kept = without_key(&self.entries, key);
        let ghost kept_view = kept@;
        let copied_key = slice_to_vec(key);
        let copied_value = slice_to_vec(value);
        self.entries = kept;
        self.entries.push((copied_key, copied_value));
        proof {
            lemma_entries_map_push(kept_view, (copied_key, copied_value));
            assert(entries_map(old(self).entries@).remove(key@).insert(key@, value@)
                =~= entries_map(old(self).entries@).insert(key@, value@));
        }
        Ok(value.len() as u64)
    }

    fn remove(&mut self, key: &[u8]) -> (r: Result<u64, VmError>) {
        self.entries = without_key(&self.entries, key);
        Ok(key.len() as u64)
    }
}

/// A storage strategy whose backend is unreachable: every operation reports
/// a domain failure and leaves no trace.
pub struct FailingStorage;

impl Storage for FailingStorage {
    open spec fn contents(&self) -> Map<Seq<u8>, Seq<u8>> {
        Map::empty()
    }

    open spec fn never_fails(&self) -> bool {
        false
    }

    open spec fn gas_of_get(&self, key: Seq<u8>) -> u64 {
        0
    }

    open spec fn gas_of_set(&self, key: Seq<u8>, value: Seq<u8>) -> u64 {
        0
    }

    open spec fn gas_of_remove(&self, key: Seq<u8>) -> u64 {
        0
    }

    fn get(&self, key: &[u8]) -> (r: Result<(Option<Vec<u8>>, u64), VmError>)
        ensures
            r matches Err(e) && e.kind == VmErrorKind::BackendUnavailable,
    {
        Err(
            VmError {
                kind: VmErrorKind::BackendUnavailable,
                msg: String::from_str("storage backend unavailable"),
            },
        )
    }

    fn set(&mut self, key: &[u8], value: &[u8]) -> (r: Result<u64, VmError>)
        ensures
            r matches Err(e) && e.kind == VmErrorKind::BackendUnavailable,
    {
        Err(
            VmError {
                kind: VmErrorKind::BackendUnavailable,
                msg: String::from_str("storage backend unavailable"),
            },
        )
    }

    fn remove(&mut self, key: &[u8]) -> (r: Result<u64, VmError>)
        ensures
            r matches Err(e) && e.kind == VmErrorKind::BackendUnavailable,
    {
        Err(
            VmError {
                kind: VmErrorKind::BackendUnavailable,
                msg: String::from_str("storage backend unavailable"),
            },
        )
    }
}

} // verus!
