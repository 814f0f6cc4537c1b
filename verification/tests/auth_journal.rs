//! The durable journal.

use password_profile::auth_event::{
    SharedAuthEvent, EVENT_FLAG_CLEAR_LOGIN_ATTEMPTS, EVENT_KIND_GRACE_CONSUMED,
};
use password_profile::auth_journal::{
    active_path, check_permissions, complete_length, decode, decode_given, encode, encode_given,
    processing_path, rotate, stats, verify_pending, JournalError, JournalFault, JournalReader, Rotation, RECORD_SIZE,
};
use password_profile::username::LOCK_USERNAME_BYTES;
use std::hash::Hasher;

fn event() -> SharedAuthEvent {
    let mut username = [0u8; LOCK_USERNAME_BYTES];
    username[..5].copy_from_slice(b"alice");
    SharedAuthEvent {
        event_id: [7; 16],
        username,
        timestamp: 123,
        seq: 42,
        kind: EVENT_KIND_GRACE_CONSUMED,
        generation: 99,
        flags: EVENT_FLAG_CLEAR_LOGIN_ATTEMPTS,
    }
}

#[test]
fn fixed_record_round_trip_preserves_durable_fields() {
    let decoded = decode(&encode(&event())).unwrap();
    assert_eq!(decoded.event_id, [7; 16]);
    assert_eq!(&decoded.username[..5], b"alice");
    assert_eq!(decoded.timestamp, 123);
    assert_eq!(decoded.generation, 99);
    assert_eq!(decoded.kind, EVENT_KIND_GRACE_CONSUMED);
    assert_eq!(decoded.flags, EVENT_FLAG_CLEAR_LOGIN_ATTEMPTS);
    assert_eq!(decoded.seq, 0);
}

#[test]
fn checksum_rejects_modified_record() {
    let mut bytes = encode(&event());
    bytes[25] ^= 0x40;
    assert!(matches!(decode(&bytes), Err(JournalError::Corrupt(_))));
}

fn fault(r: Result<SharedAuthEvent, JournalError>) -> JournalFault {
    match r {
        Err(JournalError::Corrupt(f)) => f,
        _ => panic!("expected a fault"),
    }
}

#[test]
fn only_the_given_checksum_decides() {
    let e = event();
    let bytes = encode_given(&e, 0x0102_0304_0506_0708);
    assert_eq!(&bytes[104..112], &[8, 7, 6, 5, 4, 3, 2, 1]);
    assert_eq!(&bytes[..104], &encode(&e)[..104]);
    let read = decode_given(&bytes, 0x0102_0304_0506_0708).unwrap();
    assert_eq!(read.event_id, e.event_id);
    assert_eq!(read.generation, 99);
    assert_eq!(read.seq, 0);
    assert_eq!(
        fault(decode_given(&bytes, 1)),
        JournalFault::ChecksumMismatch
    );
    assert_eq!(fault(decode(&bytes)), JournalFault::ChecksumMismatch);
    // The header comes before the checksum, the name after it.
    let mut other = bytes;
    other[0] = b'Q';
    assert_eq!(fault(decode_given(&other, 1)), JournalFault::InvalidHeader);
    let mut nameless = e;
    nameless.username = [0; LOCK_USERNAME_BYTES];
    assert_eq!(
        fault(decode_given(&encode_given(&nameless, 5), 5)),
        JournalFault::InvalidUsername
    );
}

#[test]
fn record_layout_is_fixed() {
    let bytes = encode(&event());
    assert_eq!(bytes.len(), 112);
    assert_eq!(&bytes[0..4], b"PPJ1");
    assert_eq!(&bytes[4..20], &[7u8; 16]);
    assert_eq!(&bytes[20..25], b"alice");
    assert_eq!(&bytes[84..92], &123i64.to_le_bytes());
    assert_eq!(&bytes[92..100], &99i64.to_le_bytes());
    assert_eq!(bytes[100], EVENT_KIND_GRACE_CONSUMED);
    assert_eq!(bytes[101], EVENT_FLAG_CLEAR_LOGIN_ATTEMPTS);
    assert_eq!(&bytes[102..104], &[0, 0]);
    // The checksum is SipHash-1-3 over what precedes it.
    let mut hasher = siphasher::sip::SipHasher13::new_with_keys(
        0x7061_7373_776f_7264,
        0x7072_6f66_696c_6531,
    );
    hasher.write(&bytes[..104]);
    assert_eq!(&bytes[104..], &hasher.finish().to_le_bytes());
}

#[test]
fn negative_times_round_trip() {
    let mut e = event();
    e.timestamp = -5;
    e.generation = i64::MIN;
    let d = decode(&encode(&e)).unwrap();
    assert_eq!(d.timestamp, -5);
    assert_eq!(d.generation, i64::MIN);
}

#[test]
fn every_fault_is_told_apart() {
    let mut bytes = encode(&event());
    bytes[0] = 0;
    assert_eq!(fault(decode(&bytes)), JournalFault::InvalidHeader);

    let mut bytes = encode(&event());
    bytes[111] ^= 1;
    assert_eq!(fault(decode(&bytes)), JournalFault::ChecksumMismatch);

    let mut e = event();
    e.username = [0; LOCK_USERNAME_BYTES];
    assert_eq!(fault(decode(&encode(&e))), JournalFault::InvalidUsername);
    e.username[0] = 0xff;
    assert_eq!(fault(decode(&encode(&e))), JournalFault::InvalidUsername);

    let mut e = event();
    e.kind = 4;
    assert_eq!(fault(decode(&encode(&e))), JournalFault::UnknownKind);

    let mut e = event();
    e.flags = 0x80;
    assert_eq!(fault(decode(&encode(&e))), JournalFault::UnknownFlags);
}

#[test]
fn faults_have_words() {
    let e = JournalError::Corrupt(JournalFault::ChecksumMismatch);
    assert_eq!(e.message(), "auth journal record checksum mismatch");
    assert_eq!(JournalError::Io("disk full".to_string()).message(), "disk full");
    assert_eq!(
        JournalFault::LockUnavailable.reason(),
        "auth event LWLock is unavailable"
    );
}

#[test]
fn paths_are_joined_with_one_separator() {
    assert_eq!(
        active_path(Some("/data")).unwrap(),
        "/data/password_profile_auth_events.active"
    );
    assert_eq!(
        processing_path(Some("/data/")).unwrap(),
        "/data/password_profile_auth_events.processing"
    );
    assert_eq!(
        active_path(Some("")).unwrap(),
        "password_profile_auth_events.active"
    );
    assert!(matches!(
        active_path(None),
        Err(JournalError::Corrupt(JournalFault::DataDirUnavailable))
    ));
    assert!(matches!(
        processing_path(None),
        Err(JournalError::Corrupt(JournalFault::DataDirUnavailable))
    ));
}

#[test]
fn replay_gives_back_what_was_appended_and_ignores_a_torn_tail() {
    let mut file: Vec<u8> = Vec::new();
    for i in 0..3u8 {
        let mut e = event();
        e.event_id = [i; 16];
        file.extend_from_slice(&encode(&e));
    }
    file.extend_from_slice(&encode(&event())[..50]);
    assert_eq!(complete_length(file.len() as u64), 336);

    let mut reader = JournalReader::open(file.len() as u64);
    let mut ids = Vec::new();
    let mut at = 0;
    while reader.has_next() {
        let mut record = [0u8; RECORD_SIZE];
        record.copy_from_slice(&file[at..at + RECORD_SIZE]);
        at += RECORD_SIZE;
        ids.push(reader.next_event(&record).unwrap().unwrap().event_id[0]);
    }
    assert_eq!(ids, vec![0, 1, 2]);
    assert!(matches!(reader.next_event(&[0u8; RECORD_SIZE]), Ok(None)));
    assert!(verify_pending(Some(&file[..]), None).is_ok());
}

#[test]
fn a_record_counts_as_read_even_when_it_is_refused() {
    let mut reader = JournalReader::open(RECORD_SIZE as u64);
    assert!(reader.next_event(&[0u8; RECORD_SIZE]).is_err());
    assert!(!reader.has_next());
}

#[test]
fn verification_looks_at_the_replayed_file_first() {
    let good = encode(&event());
    let mut header = good;
    header[0] = 0;
    let mut sum = good;
    sum[50] ^= 1;
    assert!(verify_pending(None, None).is_ok());
    assert!(matches!(
        verify_pending(Some(&header[..]), Some(&sum[..])),
        Err(JournalError::Corrupt(JournalFault::InvalidHeader))
    ));
    assert!(matches!(
        verify_pending(Some(&good[..]), Some(&sum[..])),
        Err(JournalError::Corrupt(JournalFault::ChecksumMismatch))
    ));
}

#[test]
fn only_owner_permissions_are_allowed() {
    assert!(check_permissions(0o100600).is_ok());
    assert!(check_permissions(0o600).is_ok());
    assert!(matches!(
        check_permissions(0o640),
        Err(JournalError::Corrupt(JournalFault::OpenPermissions))
    ));
    assert!(check_permissions(0o601).is_err());
}

#[test]
fn rotation_prefers_the_file_being_replayed() {
    assert_eq!(rotate(true, Some(5)), Rotation::Continue);
    assert_eq!(rotate(false, Some(5)), Rotation::Rename);
    assert_eq!(rotate(false, Some(0)), Rotation::Nothing);
    assert_eq!(rotate(false, None), Rotation::Nothing);
}

#[test]
fn journal_statistics_add_up() {
    let s = stats(Some(250), Some(112));
    assert_eq!(s.pending_bytes, 362);
    assert_eq!(s.pending_records, 3);
    let none = stats(None, None);
    assert_eq!(none.pending_bytes, 0);
    assert_eq!(none.pending_records, 0);
    assert_eq!(stats(Some(u64::MAX), Some(1)).pending_bytes, i64::MAX);
}
