//! The mathematical model of the registry and of the transitions the
//! supervision operations perform on it.
//!
//! The registry's contents are a map from stored keys (the UTF-8 bytes of
//! process names) to stored record bytes; `rec_at` reads one record back
//! through the codec. Each `after_*` function is the store a successful
//! operation leaves behind, and each `*_allowed` predicate says on which
//! stores the operation may succeed.

use vstd::prelude::*;
use vstd::utf8::encode_utf8;

use crate::codec::{spec_decode, spec_encode};
use crate::record::ProcessModel;

verus! {

/// The key a process name is stored under: its UTF-8 bytes.
pub open spec fn name_key(name: Seq<char>) -> Seq<u8> {
    encode_utf8(name)
}

/// Whether the store holds a record under `name` at all.
pub open spec fn has_name(store: Map<Seq<u8>, Seq<u8>>, name: Seq<char>) -> bool {
    store.contains_key(name_key(name))
}

/// The record stored under `name`, decoded; `None` where the name is
/// absent or the stored bytes are not a well-formed record.
pub open spec fn rec_at(store: Map<Seq<u8>, Seq<u8>>, name: Seq<char>) -> Option<ProcessModel> {
    if has_name(store, name) {
        spec_decode(store[name_key(name)])
    } else {
        None
    }
}

/// `start` may succeed only where the name is still free.
pub open spec fn start_allowed(store: Map<Seq<u8>, Seq<u8>>, name: Seq<char>) -> bool {
    !has_name(store, name)
}

/// The record a fresh launch writes: active, with the launch pid, the
/// command it was launched from, and the creation-time restart policy.
pub open spec fn fresh_record(pid: u32, auto_restart: bool, command: Seq<char>) -> ProcessModel {
    ProcessModel { pid, active: true, command, restart: auto_restart }
}

/// The store after a successful `start`.
pub open spec fn after_start(
    store: Map<Seq<u8>, Seq<u8>>,
    name: Seq<char>,
    pid: u32,
    auto_restart: bool,
    command: Seq<char>,
) -> Map<Seq<u8>, Seq<u8>> {
    store.insert(name_key(name), spec_encode(fresh_record(pid, auto_restart, command)))
}

/// A record with its status turned to dead and everything else kept.
pub open spec fn dead_version(m: ProcessModel) -> ProcessModel {
    ProcessModel { active: false, ..m }
}

/// The store after the watch bookkeeping records an exit of `name`.
pub open spec fn after_mark_dead(store: Map<Seq<u8>, Seq<u8>>, name: Seq<char>) -> Map<
    Seq<u8>,
    Seq<u8>,
> {
    store.insert(name_key(name), spec_encode(dead_version(rec_at(store, name)->0)))
}

/// A record relaunched under a new pid: active, same command, same policy.
pub open spec fn relaunched(m: ProcessModel, pid: u32) -> ProcessModel {
    ProcessModel { pid, active: true, ..m }
}

/// The store after a restart (or an automatic relaunch) of `name` came up
/// under `pid`.
pub open spec fn after_relaunch(store: Map<Seq<u8>, Seq<u8>>, name: Seq<char>, pid: u32) -> Map<
    Seq<u8>,
    Seq<u8>,
> {
    store.insert(name_key(name), spec_encode(relaunched(rec_at(store, name)->0, pid)))
}

/// `delete` may succeed only on a record whose last recorded status is
/// dead.
pub open spec fn delete_allowed(store: Map<Seq<u8>, Seq<u8>>, name: Seq<char>) -> bool {
    rec_at(store, name) matches Some(m) && !m.active
}

/// The restart policy: a chain relaunches its process exactly when the
/// exit reported a code and that code was not zero. An exit without a
/// code (the child was ended by a signal) does not relaunch.
pub open spec fn spec_should_relaunch(exit_code: Option<i32>) -> bool {
    exit_code matches Some(c) && c != 0
}

} // verus!
