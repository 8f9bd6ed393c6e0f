//! The byte layout under which a record is persisted in the registry.
//!
//! A record is stored as six header bytes followed by the command text:
//! the pid in four little-endian bytes, one status byte (1 for active,
//! 0 for dead), one auto-restart byte (1 or 0), then the UTF-8 bytes of
//! the command line. Decoding rejects anything shorter than a header,
//! any flag byte other than 0 or 1, and a command that is not UTF-8.

use vstd::prelude::*;
use vstd::utf8::{decode_utf8, encode_utf8, valid_utf8};

use crate::errors::ProcessError;
use crate::record::{Process, ProcessModel, Status};

verus! {

/// The four little-endian bytes of a pid.
pub open spec fn pid_bytes(pid: u32) -> Seq<u8> {
    seq![
        (pid & 0xff) as u8,
        ((pid >> 8) & 0xff) as u8,
        ((pid >> 16) & 0xff) as u8,
        ((pid >> 24) & 0xff) as u8,
    ]
}

/// The pid read back from four little-endian bytes.
pub open spec fn pid_value(b0: u8, b1: u8, b2: u8, b3: u8) -> u32 {
    (b0 as u32) | ((b1 as u32) << 8) | ((b2 as u32) << 16) | ((b3 as u32) << 24)
}

/// A boolean as one stored byte.
pub open spec fn flag_byte(b: bool) -> u8 {
    if b {
        1
    } else {
        0
    }
}

/// The stored form of a record.
pub open spec fn spec_encode(m: ProcessModel) -> Seq<u8> {
    pid_bytes(m.pid) + seq![flag_byte(m.active), flag_byte(m.restart)] + encode_utf8(m.command)
}

/// The record read back from its stored form, or `None` where the bytes
/// are not a well-formed stored record.
pub open spec fn spec_decode(b: Seq<u8>) -> Option<ProcessModel> {
    if b.len() >= 6 && (b[4] == 0 || b[4] == 1) && (b[5] == 0 || b[5] == 1) && valid_utf8(
        b.skip(6),
    ) {
        Some(
            ProcessModel {
                pid: pid_value(b[0], b[1], b[2], b[3]),
                active: b[4] == 1,
                restart: b[5] == 1,
                command: decode_utf8(b.skip(6)),
            },
        )
    } else {
        None
    }
}

/// Reading four little-endian bytes undoes writing them.
proof fn lemma_pid_round_trip(pid: u32)
    ensures
        pid_value(
            (pid & 0xff) as u8,
            ((pid >> 8) & 0xff) as u8,
            ((pid >> 16) & 0xff) as u8,
            ((pid >> 24) & 0xff) as u8,
        ) == pid,
{
    assert((((pid & 0xff) as u8) as u32) | (((((pid >> 8) & 0xff) as u8) as u32) << 8) | (((((pid
        >> 16) & 0xff) as u8) as u32) << 16) | (((((pid >> 24) & 0xff) as u8) as u32) << 24)
        == pid) by (bit_vector);
}

/// Round-trip law: decoding an encoded record yields the record again,
/// with pid, status, command and auto-restart flag all preserved.
pub proof fn lemma_record_round_trip(m: ProcessModel)
    ensures
        spec_decode(spec_encode(m)) == Some(m),
{
    broadcast use vstd::utf8::encode_utf8_valid_utf8;
    broadcast use vstd::utf8::encode_utf8_decode_utf8;

    let e = spec_encode(m);
    assert(e.skip(6) =~= encode_utf8(m.command));
    lemma_pid_round_trip(m.pid);
    assert(spec_decode(e) == Some(m));
}

/// Serialise a record into its stored byte form.
pub fn encode_record(record: &Process) -> (r: Vec<u8>)
    ensures
        r@ == spec_encode(record@),
{
    let mut out: Vec<u8> = Vec::new();
    out.push((record.pid & 0xff) as u8);
    out.push(((record.pid >> 8) & 0xff) as u8);
    out.push(((record.pid >> 16) & 0xff) as u8);
    out.push(((record.pid >> 24) & 0xff) as u8);
    out.push(if record.status.is_active() {
        1
    } else {
        0
    });
    out.push(if record.restart {
        1
    } else {
        0
    });
    let bytes: &[u8] = record.command.as_str().as_bytes();
    out.extend_from_slice(bytes);
    proof {
        assert(out@ =~= spec_encode(record@));
    }
    out
}

/// Relies on `String::from_utf8`: it succeeds exactly on UTF-8 input and
/// returns the string those bytes spell.
#[verifier::external_body]
pub(crate) fn string_from_utf8(bytes: &[u8]) -> (r: Option<String>)
    ensures
        r is Some <==> valid_utf8(bytes@),
        r matches Some(s) ==> s@ == decode_utf8(bytes@),
{
    String::from_utf8(bytes.to_vec()).ok()
}

/// Read a record back from its stored byte form; `None` on bytes that are
/// not a well-formed stored record.
pub fn decode_record(bytes: &Vec<u8>) -> (r: Option<Process>)
    ensures
        r matches Some(p) ==> spec_decode(bytes@) == Some(p@),
        r is None ==> spec_decode(bytes@) is None,
{
    if bytes.len() < 6 {
        return None;
    }
    let status_byte = bytes[4];
    let restart_byte = bytes[5];
    if status_byte > 1 || restart_byte > 1 {
        return None;
    }
    let mut command_bytes: Vec<u8> = Vec::new();
    let mut i: usize = 6;
    while i < bytes.len()
        invariant
            6 <= i <= bytes@.len(),
            command_bytes@ =~= bytes@.subrange(6, i as int),
        decreases bytes@.len() - i,
    {
        command_bytes.push(bytes[i]);
        i = i + 1;
    }
    proof {
        assert(command_bytes@ =~= bytes@.skip(6));
    }
    match string_from_utf8(command_bytes.as_slice()) {
        None => None,
        Some(command) => {
            let pid = (bytes[0] as u32) | ((bytes[1] as u32) << 8) | ((bytes[2] as u32) << 16) | (
            (bytes[3] as u32) << 24);
            Some(
                Process {
                    pid,
                    status: if status_byte == 1 {
                        Status::Active
                    } else {
                        Status::Dead
                    },
                    command,
                    restart: restart_byte == 1,
                },
            )
        },
    }
}

/// Read a record back, reporting an unreadable stored form as a storage
/// failure, the way a registry read does.
pub fn decode_record_or_fault(bytes: &Vec<u8>) -> (r: Result<Process, ProcessError>)
    ensures
        r matches Ok(p) ==> spec_decode(bytes@) == Some(p@),
        r matches Err(e) ==> e is StorageError && spec_decode(bytes@) is None,
{
    match decode_record(bytes) {
        Some(p) => Ok(p),
        None => Err(ProcessError::StorageError),
    }
}

} // verus!
