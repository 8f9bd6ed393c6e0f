//! The durable process registry: the single source of truth for process
//! records, keyed by name, with atomic insert-if-absent.

use vstd::prelude::*;

use crate::codec::{decode_record, decode_record_or_fault, encode_record, spec_decode, string_from_utf8};
use crate::errors::ProcessError;
use crate::model::{has_name, name_key, rec_at};
use crate::record::Process;
use crate::store::{db_entries, db_get, db_insert, db_insert_new, db_map, db_remove};

verus! {

/// The registry over its durable store. All access goes through the typed
/// operations below; its abstract contents are the map `self@` from stored
/// keys (the UTF-8 bytes of names) to stored record bytes.
pub struct Registry {
    db: sled::Db,
}

impl View for Registry {
    type V = Map<Seq<u8>, Seq<u8>>;

    closed spec fn view(&self) -> Map<Seq<u8>, Seq<u8>> {
        db_map(self.db)
    }
}

impl Registry {
    /// Wrap an opened store. The registry takes sole ownership of the
    /// handle; the caller must not retain another handle to the same
    /// tree, or the contents could change behind the registry's back.
    pub fn new(db: sled::Db) -> (r: Registry)
        ensures
            r@ == db_map(db),
    {
        Registry { db }
    }

    /// Look a record up by name.
    pub fn get(&mut self, name: &str) -> (r: Result<Process, ProcessError>)
        ensures
            final(self)@ == old(self)@,
            r matches Ok(p) ==> rec_at(final(self)@, name@) == Some(p@),
            r matches Err(e) ==> e is NotFound || e is StorageError,
            r matches Err(e) && e is NotFound ==> !has_name(final(self)@, name@),
    {
        match db_get(&mut self.db, name.as_bytes()) {
            Ok(Some(bytes)) => decode_record_or_fault(&bytes),
            Ok(None) => Err(ProcessError::NotFound),
            Err(_) => Err(ProcessError::StorageError),
        }
    }

    /// Create the record for a fresh name. Atomic: of two racing callers
    /// with one name at most one is told `Ok`.
    pub fn insert_if_absent(&mut self, name: &str, record: &Process) -> (r: Result<
        (),
        ProcessError,
    >)
        ensures
            r is Ok ==> !has_name(old(self)@, name@) && final(self)@ == old(self)@.insert(
                name_key(name@),
                crate::codec::spec_encode(record@),
            ),
            r matches Err(e) ==> e is AlreadyExists || e is StorageError,
            r matches Err(e) && e is AlreadyExists ==> has_name(old(self)@, name@) && final(self)@
                == old(self)@,
    {
        let bytes = encode_record(record);
        match db_insert_new(&mut self.db, name.as_bytes(), &bytes) {
            Ok(true) => Ok(()),
            Ok(false) => Err(ProcessError::AlreadyExists),
            Err(_) => Err(ProcessError::StorageError),
        }
    }

    /// Replace the record stored under an existing name in full.
    pub fn update(&mut self, name: &str, record: &Process) -> (r: Result<(), ProcessError>)
        ensures
            r is Ok ==> has_name(old(self)@, name@) && final(self)@ == old(self)@.insert(
                name_key(name@),
                crate::codec::spec_encode(record@),
            ),
            r matches Err(e) ==> e is NotFound || e is StorageError,
            r matches Err(e) && e is NotFound ==> !has_name(old(self)@, name@) && final(self)@
                == old(self)@,
    {
        match db_get(&mut self.db, name.as_bytes()) {
            Ok(Some(_)) => {
                let bytes = encode_record(record);
                match db_insert(&mut self.db, name.as_bytes(), &bytes) {
                    Ok(_) => Ok(()),
                    Err(_) => Err(ProcessError::StorageError),
                }
            },
            Ok(None) => Err(ProcessError::NotFound),
            Err(_) => Err(ProcessError::StorageError),
        }
    }

    /// Remove the record stored under a name.
    pub fn remove(&mut self, name: &str) -> (r: Result<(), ProcessError>)
        ensures
            r is Ok ==> has_name(old(self)@, name@) && final(self)@ == old(self)@.remove(
                name_key(name@),
            ),
            r matches Err(e) ==> e is NotFound || e is StorageError,
            r matches Err(e) && e is NotFound ==> !has_name(old(self)@, name@) && final(self)@
                == old(self)@,
    {
        match db_remove(&mut self.db, name.as_bytes()) {
            Ok(true) => Ok(()),
            Ok(false) => {
                proof {
                    assert(self@ =~= old(self)@);
                }
                Err(ProcessError::NotFound)
            },
            Err(_) => Err(ProcessError::StorageError),
        }
    }

    /// Every readable record in the store, each name exactly once, in no
    /// significant order. An entry whose stored key is not UTF-8 text, or
    /// whose stored bytes are not a well-formed record, is left out.
    #[verifier::loop_isolation(false)]
    pub fn list_all(&mut self) -> (r: Result<Vec<(String, Process)>, ProcessError>)
        ensures
            final(self)@ == old(self)@,
            r matches Ok(v) ==> {
                &&& forall|i: int|
                    0 <= i < v@.len() ==> rec_at(final(self)@, (#[trigger] v@[i]).0@) == Some(
                        v@[i].1@,
                    )
                &&& forall|k: Seq<u8>|
                    #[trigger] final(self)@.contains_key(k) && vstd::utf8::valid_utf8(k)
                        && spec_decode(final(self)@[k]) is Some ==> exists|i: int|
                        0 <= i < v@.len() && name_key((#[trigger] v@[i]).0@) == k
                &&& forall|i: int, j: int|
                    0 <= i < j < v@.len() ==> (#[trigger] v@[i]).0@ != (#[trigger] v@[j]).0@
            },
            r matches Err(e) ==> e is StorageError,
    {
        let entries = match db_entries(&mut self.db) {
            Ok(entries) => entries,
            Err(_) => {
                return Err(ProcessError::StorageError);
            },
        };
        let mut out: Vec<(String, Process)> = Vec::new();
        let mut i: usize = 0;
        while i < entries.len()
            invariant
                0 <= i <= entries@.len(),
                forall|t: int|
                    0 <= t < out@.len() ==> rec_at(self@, (#[trigger] out@[t]).0@) == Some(
                        out@[t].1@,
                    ),
                forall|t: int|
                    0 <= t < out@.len() ==> exists|j: int|
                        0 <= j < i && name_key((#[trigger] out@[t]).0@) == entries@[j].0@,
                forall|j: int|
                    0 <= j < i && vstd::utf8::valid_utf8((#[trigger] entries@[j]).0@)
                        && spec_decode(self@[entries@[j].0@]) is Some ==> exists|t: int|
                        0 <= t < out@.len() && name_key((#[trigger] out@[t]).0@)
                            == entries@[j].0@,
                forall|t1: int, t2: int|
                    0 <= t1 < t2 < out@.len() ==> (#[trigger] out@[t1]).0@ != (#[trigger] out@[t2]).0@,
            decreases entries@.len() - i,
        {
            broadcast use vstd::utf8::decode_utf8_encode_utf8;

            let entry = &entries[i];
            let ghost pre_out = out@;
            match string_from_utf8(entry.0.as_slice()) {
                None => {
                },
                Some(name) => {
                    match decode_record(&entry.1) {
                        Some(p) => {
                            proof {
                                assert(name_key(name@) == entries@[i as int].0@);
                            }
                            out.push((name, p));
                            proof {
                                assert(name_key(out@[out@.len() - 1].0@) == entries@[i as int].0@);
                                assert forall|t: int| 0 <= t < pre_out.len() implies (
                                #[trigger] pre_out[t]).0@ != out@[out@.len() - 1].0@ by {
                                    let j = choose|j: int|
                                        0 <= j < i && name_key((#[trigger] pre_out[t]).0@)
                                            == entries@[j].0@;
                                    assert(entries@[j].0@ != entries@[i as int].0@);
                                }
                                assert forall|j: int|
                                    0 <= j < i + 1 && vstd::utf8::valid_utf8(
                                        (#[trigger] entries@[j]).0@,
                                    ) && spec_decode(self@[entries@[j].0@]) is Some implies exists|
                                    t: int,
                                |
                                    0 <= t < out@.len() && name_key((#[trigger] out@[t]).0@)
                                        == entries@[j].0@ by {
                                    if j < i {
                                        let t = choose|t: int|
                                            0 <= t < pre_out.len() && name_key(
                                                (#[trigger] pre_out[t]).0@,
                                            ) == entries@[j].0@;
                                        assert(name_key(out@[t].0@) == entries@[j].0@);
                                    } else {
                                        assert(name_key(out@[out@.len() - 1].0@)
                                            == entries@[j].0@);
                                    }
                                }
                            }
                        },
                        None => {
                            proof {
                                assert(self@[entries@[i as int].0@] == entries@[i as int].1@);
                            }
                        },
                    }
                },
            }
            i = i + 1;
        }
        Ok(out)
    }
}

} // verus!
