use laccaria::codec::{decode_record, decode_record_or_fault, encode_record};
use laccaria::{Process, ProcessError, Status};

fn record(pid: u32, status: Status, command: &str, restart: bool) -> Process {
    Process { pid, status, command: command.to_string(), restart }
}

#[test]
fn encode_exact_bytes() {
    let p = record(0x01020304, Status::Active, "hi", true);
    let bytes = encode_record(&p);
    assert_eq!(bytes, vec![0x04, 0x03, 0x02, 0x01, 1, 1, b'h', b'i']);
}

#[test]
fn encode_dead_no_restart() {
    let p = record(7, Status::Dead, "", false);
    let bytes = encode_record(&p);
    assert_eq!(bytes, vec![7, 0, 0, 0, 0, 0]);
}

#[test]
fn round_trip_plain() {
    let p = record(4242, Status::Active, "sleep 1", false);
    let back = decode_record(&encode_record(&p)).expect("decodes");
    assert_eq!(back.pid, 4242);
    assert!(matches!(back.status, Status::Active));
    assert_eq!(back.command, "sleep 1");
    assert!(!back.restart);
}

#[test]
fn round_trip_extremes() {
    let p = record(u32::MAX, Status::Dead, "echo 'héllo wörld' \u{1F980}", true);
    let back = decode_record(&encode_record(&p)).expect("decodes");
    assert_eq!(back.pid, u32::MAX);
    assert!(matches!(back.status, Status::Dead));
    assert_eq!(back.command, "echo 'héllo wörld' \u{1F980}");
    assert!(back.restart);
}

#[test]
fn round_trip_empty_command() {
    let p = record(0, Status::Active, "", true);
    let back = decode_record(&encode_record(&p)).expect("decodes");
    assert_eq!(back.command, "");
    assert_eq!(back.pid, 0);
}

#[test]
fn decode_rejects_short_buffer() {
    assert!(decode_record(&vec![]).is_none());
    assert!(decode_record(&vec![1, 2, 3, 4, 1]).is_none());
}

#[test]
fn decode_rejects_bad_flag_bytes() {
    assert!(decode_record(&vec![0, 0, 0, 0, 2, 0]).is_none());
    assert!(decode_record(&vec![0, 0, 0, 0, 0, 7]).is_none());
}

#[test]
fn decode_rejects_bad_utf8() {
    assert!(decode_record(&vec![0, 0, 0, 0, 1, 1, 0xff, 0xfe]).is_none());
}

#[test]
fn decode_fault_is_storage_error() {
    assert_eq!(decode_record_or_fault(&vec![9]), Err(ProcessError::StorageError));
}
