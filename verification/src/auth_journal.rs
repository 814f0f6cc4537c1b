//! Durable authentication-event journal: the record format, the file names and the rules by which
//! the files are rotated, read and verified.
//!
//! A record is 112 bytes: the magic `PPJ1`, the event's identity, the NUL-padded role name, the
//! timestamp and the password generation in little-endian order, the kind, the flags, two zero
//! bytes, and a SipHash-1-3 checksum over all that precedes it.

use crate::arith;
use crate::auth_event;
use crate::auth_event::{EventFlags, EventKind, SharedAuthEvent, EVENT_ID_BYTES};
use crate::hashing;
use crate::username;
use crate::username::LOCK_USERNAME_BYTES;
use vstd::bytes::*;
use vstd::prelude::*;
use vstd::slice::slice_subrange;
use vstd::string::*;
use vstd::utf8::*;

verus! {

/// The file producers append to.
pub const ACTIVE_FILE: &'static str = "password_profile_auth_events.active";

/// The file the worker replays.
pub const PROCESSING_FILE: &'static str = "password_profile_auth_events.processing";

/// Bytes of one record.
pub const RECORD_SIZE: usize = 112;

/// Where the checksum begins.
pub const CHECKSUM_OFFSET: usize = 104;

/// First key word of the checksum.
pub const HASH_KEY_0: u64 = 0x7061_7373_776f_7264;

/// Second key word of the checksum.
pub const HASH_KEY_1: u64 = 0x7072_6f66_696c_6531;

/// Why a journal cannot be trusted or used.
#[derive(Clone, Copy, PartialEq, Eq, Debug, Structural)]
pub enum JournalFault {
    InvalidHeader,
    ChecksumMismatch,
    InvalidUsername,
    UnknownKind,
    UnknownFlags,
    DataDirUnavailable,
    OpenPermissions,
    LockUnavailable,
    SharedMemoryUnavailable,
}

impl JournalFault {
    /// The fault in words.
    pub open spec fn words(self) -> Seq<char> {
        match self {
            JournalFault::InvalidHeader => "auth journal record has an invalid header"@,
            JournalFault::ChecksumMismatch => "auth journal record checksum mismatch"@,
            JournalFault::InvalidUsername => "auth journal record has an invalid username"@,
            JournalFault::UnknownKind => "auth journal record has an unknown event kind"@,
            JournalFault::UnknownFlags => "auth journal record has unknown event flags"@,
            JournalFault::DataDirUnavailable => "PostgreSQL data directory is unavailable"@,
            JournalFault::OpenPermissions => {
                "auth journal permissions must not grant group or other access"@
            },
            JournalFault::LockUnavailable => "auth event LWLock is unavailable"@,
            JournalFault::SharedMemoryUnavailable => "auth event shared memory is unavailable"@,
        }
    }

    /// The fault in words.
    pub fn reason(self) -> (r: &'static str)
        ensures
            r@ == self.words(),
    {
        match self {
            JournalFault::InvalidHeader => "auth journal record has an invalid header",
            JournalFault::ChecksumMismatch => "auth journal record checksum mismatch",
            JournalFault::InvalidUsername => "auth journal record has an invalid username",
            JournalFault::UnknownKind => "auth journal record has an unknown event kind",
            JournalFault::UnknownFlags => "auth journal record has unknown event flags",
            JournalFault::DataDirUnavailable => "PostgreSQL data directory is unavailable",
            JournalFault::OpenPermissions => {
                "auth journal permissions must not grant group or other access"
            },
            JournalFault::LockUnavailable => "auth event LWLock is unavailable",
            JournalFault::SharedMemoryUnavailable => "auth event shared memory is unavailable",
        }
    }
}

/// A journal operation failed: in the file system, with the system's words for it, or because
/// what was found cannot be trusted.
#[derive(Debug)]
pub enum JournalError {
    Io(String),
    Corrupt(JournalFault),
}

impl JournalError {
    /// The error in words.
    pub open spec fn words(self) -> Seq<char> {
        match self {
            JournalError::Io(text) => text@,
            JournalError::Corrupt(fault) => fault.words(),
        }
    }

    /// The error in words.
    pub fn message(&self) -> (r: String)
        ensures
            r@ == self.words(),
    {
        match self {
            JournalError::Io(text) => text.as_str().to_string(),
            JournalError::Corrupt(fault) => fault.reason().to_string(),
        }
    }
}

/// The path of `name` inside `dir`: a `/` stands between them unless `dir` is empty or ends in
/// one.
pub open spec fn path_inside(dir: Seq<char>, name: Seq<char>) -> Seq<char> {
    if dir.len() == 0 || dir.last() == '/' {
        dir + name
    } else {
        dir.push('/') + name
    }
}

fn join_path(dir: &str, name: &str) -> (r: String)
    ensures
        r@ == path_inside(dir@, name@),
{
    let mut path = dir.to_string();
    let n: usize = dir.unicode_len();
    if n != 0 && dir.get_char(n - 1) != '/' {
        proof {
            reveal_strlit("/");
        }
        path.append("/");
        assert(path@ =~= dir@.push('/'));
    }
    path.append(name);
    path
}

/// The path of the file producers append to, inside PostgreSQL's data directory.
pub fn active_path(data_dir: Option<&str>) -> (r: Result<String, JournalError>)
    ensures
        data_dir matches Some(dir) ==> (r matches Ok(p) && p@ == path_inside(
            dir@,
            ACTIVE_FILE@,
        )),
        data_dir is None ==> (r matches Err(JournalError::Corrupt(f)) && f
            == JournalFault::DataDirUnavailable),
{
    match data_dir {
        Some(dir) => Ok(join_path(dir, ACTIVE_FILE)),
        None => Err(JournalError::Corrupt(JournalFault::DataDirUnavailable)),
    }
}

/// The path of the file the worker replays, inside PostgreSQL's data directory.
pub fn processing_path(data_dir: Option<&str>) -> (r: Result<String, JournalError>)
    ensures
        data_dir matches Some(dir) ==> (r matches Ok(p) && p@ == path_inside(
            dir@,
            PROCESSING_FILE@,
        )),
        data_dir is None ==> (r matches Err(JournalError::Corrupt(f)) && f
            == JournalFault::DataDirUnavailable),
{
    match data_dir {
        Some(dir) => Ok(join_path(dir, PROCESSING_FILE)),
        None => Err(JournalError::Corrupt(JournalFault::DataDirUnavailable)),
    }
}

/// The checksum of a record's first 104 bytes.
pub open spec fn record_checksum(body: Seq<u8>) -> u64 {
    hashing::siphash13(HASH_KEY_0, HASH_KEY_1, body)
}

/// The four bytes `PPJ1` every record begins with.
pub open spec fn magic() -> Seq<u8> {
    seq![0x50u8, 0x50, 0x4A, 0x31]
}

/// What a record holds before its checksum.
pub open spec fn record_body(event: SharedAuthEvent) -> Seq<u8> {
    magic() + event.event_id@ + event.username@ + spec_u64_to_le_bytes(event.timestamp as u64)
        + spec_u64_to_le_bytes(event.generation as u64) + seq![event.kind, event.flags, 0u8, 0u8]
}

/// The record of an event.
pub open spec fn record(event: SharedAuthEvent) -> Seq<u8> {
    record_ending(event, record_checksum(record_body(event)))
}

/// The record of an event that ends with this checksum.
pub open spec fn record_ending(event: SharedAuthEvent, sum: u64) -> Seq<u8> {
    record_body(event) + spec_u64_to_le_bytes(sum)
}

/// The first reason not to trust a record, when there is one.
pub open spec fn record_fault(bytes: Seq<u8>) -> Option<JournalFault> {
    fault_given(bytes, record_checksum(bytes.subrange(0, 104)))
}

/// The same, where `sum` is the checksum of the record's first 104 bytes.
pub open spec fn fault_given(bytes: Seq<u8>, sum: u64) -> Option<JournalFault> {
    if bytes.subrange(0, 4) != magic() {
        Some(JournalFault::InvalidHeader)
    } else if sum != spec_u64_from_le_bytes(bytes.subrange(104, 112)) {
        Some(JournalFault::ChecksumMismatch)
    } else if !username::holds_name(bytes.subrange(20, 84)) {
        Some(JournalFault::InvalidUsername)
    } else if EventKind::of_raw(bytes[100]) is None {
        Some(JournalFault::UnknownKind)
    } else if !auth_event::flags_known(bytes[101]) {
        Some(JournalFault::UnknownFlags)
    } else {
        None
    }
}

/// `event` is what a record says, with no sequence number assigned.
pub open spec fn record_says(bytes: Seq<u8>, event: SharedAuthEvent) -> bool {
    &&& event.event_id@ == bytes.subrange(4, 20)
    &&& event.username@ == bytes.subrange(20, 84)
    &&& event.timestamp == spec_u64_from_le_bytes(bytes.subrange(84, 92)) as i64
    &&& event.generation == spec_u64_from_le_bytes(bytes.subrange(92, 100)) as i64
    &&& event.kind == bytes[100]
    &&& event.flags == bytes[101]
    &&& event.seq == 0
}

fn push_all(out: &mut Vec<u8>, bytes: &[u8])
    ensures
        final(out)@ == old(out)@ + bytes@,
{
    let mut i: usize = 0;
    while i < bytes.len()
        invariant
            i <= bytes@.len(),
            out@ == old(out)@ + bytes@.take(i as int),
        decreases bytes.len() - i,
    {
        out.push(bytes[i]);
        i = i + 1;
        assert(bytes@.take(i as int) =~= bytes@.take(i - 1).push(bytes@[i - 1]));
    }
    assert(bytes@.take(i as int) =~= bytes@);
}

fn checksum(bytes: &[u8]) -> (r: u64)
    ensures
        r == record_checksum(bytes@),
{
    hashing::siphash(HASH_KEY_0, HASH_KEY_1, bytes)
}

fn body_bytes(event: &SharedAuthEvent) -> (out: Vec<u8>)
    ensures
        out@ == record_body(*event),
{
    let mut out: Vec<u8> = Vec::new();
    out.push(0x50);
    out.push(0x50);
    out.push(0x4A);
    out.push(0x31);
    assert(out@ =~= magic());
    push_all(&mut out, event.event_id.as_slice());
    push_all(&mut out, event.username.as_slice());
    push_all(&mut out, u64_to_le_bytes(event.timestamp as u64).as_slice());
    push_all(&mut out, u64_to_le_bytes(event.generation as u64).as_slice());
    out.push(event.kind);
    out.push(event.flags);
    out.push(0);
    out.push(0);
    assert(out@ =~= record_body(*event));
    out
}

/// Encodes an event as a record that ends with this checksum.
pub fn encode_given(event: &SharedAuthEvent, sum: u64) -> (r: [u8; RECORD_SIZE])
    ensures
        r@ == record_ending(*event, sum),
{
    let mut out = body_bytes(event);
    push_all(&mut out, u64_to_le_bytes(sum).as_slice());
    assert(out@ == record_ending(*event, sum));
    let mut r: [u8; RECORD_SIZE] = [0u8; RECORD_SIZE];
    proof {
        lemma_auto_spec_u64_to_from_le_bytes();
    }
    assert(out@.len() == RECORD_SIZE);
    let mut i: usize = 0;
    while i < RECORD_SIZE
        invariant
            i <= RECORD_SIZE,
            out@.len() == RECORD_SIZE,
            forall|j: int| 0 <= j < i ==> r@[j] == out@[j],
        decreases RECORD_SIZE - i,
    {
        r[i] = out[i];
        i = i + 1;
    }
    assert(r@ =~= out@);
    r
}

/// Encodes an event as a record.
pub fn encode(event: &SharedAuthEvent) -> (r: [u8; RECORD_SIZE])
    ensures
        r@ == record(*event),
{
    let body = body_bytes(event);
    encode_given(event, checksum(body.as_slice()))
}

/// Decodes a record, where `sum` is the checksum of its first 104 bytes. What is returned has no
/// sequence number: the ring assigns one.
pub fn decode_given(bytes: &[u8; RECORD_SIZE], sum: u64) -> (r: Result<
    SharedAuthEvent,
    JournalError,
>)
    ensures
        r is Ok <==> fault_given(bytes@, sum) is None,
        r matches Ok(event) ==> record_says(bytes@, event),
        r matches Err(e) ==> (e matches JournalError::Corrupt(f) && Some(f) == fault_given(
            bytes@,
            sum,
        )),
{
    let all = bytes.as_slice();
    if bytes[0] != 0x50 || bytes[1] != 0x50 || bytes[2] != 0x4A || bytes[3] != 0x31 {
        assert(bytes@.subrange(0, 4)[0] == bytes@[0] && bytes@.subrange(0, 4)[1] == bytes@[1]
            && bytes@.subrange(0, 4)[2] == bytes@[2] && bytes@.subrange(0, 4)[3] == bytes@[3]);
        return Err(JournalError::Corrupt(JournalFault::InvalidHeader));
    }
    assert(bytes@.subrange(0, 4) =~= magic());
    let expected: u64 = u64_from_le_bytes(slice_subrange(all, CHECKSUM_OFFSET, RECORD_SIZE));
    if sum != expected {
        return Err(JournalError::Corrupt(JournalFault::ChecksumMismatch));
    }
    let mut event_id: [u8; EVENT_ID_BYTES] = [0u8; EVENT_ID_BYTES];
    let mut i: usize = 0;
    while i < EVENT_ID_BYTES
        invariant
            i <= EVENT_ID_BYTES,
            forall|j: int| 0 <= j < i ==> event_id@[j] == bytes@[4 + j],
        decreases EVENT_ID_BYTES - i,
    {
        event_id[i] = bytes[4 + i];
        i = i + 1;
    }
    let mut name: [u8; LOCK_USERNAME_BYTES] = [0u8; LOCK_USERNAME_BYTES];
    let mut i: usize = 0;
    while i < LOCK_USERNAME_BYTES
        invariant
            i <= LOCK_USERNAME_BYTES,
            forall|j: int| 0 <= j < i ==> name@[j] == bytes@[20 + j],
        decreases LOCK_USERNAME_BYTES - i,
    {
        name[i] = bytes[20 + i];
        i = i + 1;
    }
    assert(event_id@ =~= bytes@.subrange(4, 20));
    assert(name@ =~= bytes@.subrange(20, 84));
    let event = SharedAuthEvent {
        event_id,
        username: name,
        timestamp: u64_from_le_bytes(slice_subrange(all, 84, 92)) as i64,
        seq: 0,
        kind: bytes[100],
        generation: u64_from_le_bytes(slice_subrange(all, 92, 100)) as i64,
        flags: bytes[101],
    };
    if !username::is_name(event.username.as_slice()) {
        return Err(JournalError::Corrupt(JournalFault::InvalidUsername));
    }
    if EventKind::from_raw(event.kind).is_none() {
        return Err(JournalError::Corrupt(JournalFault::UnknownKind));
    }
    if EventFlags::from_raw(event.flags).is_none() {
        return Err(JournalError::Corrupt(JournalFault::UnknownFlags));
    }
    Ok(event)
}

/// Decodes a record.
pub fn decode(bytes: &[u8; RECORD_SIZE]) -> (r: Result<SharedAuthEvent, JournalError>)
    ensures
        r is Ok <==> record_fault(bytes@) is None,
        r matches Ok(event) ==> record_says(bytes@, event),
        r matches Err(e) ==> (e matches JournalError::Corrupt(f) && Some(f) == record_fault(
            bytes@,
        )),
{
    decode_given(bytes, checksum(slice_subrange(bytes.as_slice(), 0, CHECKSUM_OFFSET)))
}

/// An event that a hook may record: its name is stored text, its kind and flags are known.
pub open spec fn recordable(event: SharedAuthEvent) -> bool {
    &&& username::holds_name(event.username@)
    &&& EventKind::of_raw(event.kind) is Some
    &&& auth_event::flags_known(event.flags)
}

/// A signed number survives the trip through its unsigned bit pattern.
proof fn signed_survives(x: i64)
    ensures
        (x as u64) as i64 == x,
{
    assert((x as u64) as i64 == x) by (bit_vector);
}

/// The parts of a record lie where [`decode`] looks for them.
proof fn record_layout(event: SharedAuthEvent)
    ensures
        record(event).len() == RECORD_SIZE,
        record(event).subrange(0, 4) == magic(),
        record(event).subrange(4, 20) == event.event_id@,
        record(event).subrange(20, 84) == event.username@,
        record(event).subrange(84, 92) == spec_u64_to_le_bytes(event.timestamp as u64),
        record(event).subrange(92, 100) == spec_u64_to_le_bytes(event.generation as u64),
        record(event)[100] == event.kind,
        record(event)[101] == event.flags,
        record(event).subrange(0, 104) == record_body(event),
        record(event).subrange(104, 112) == spec_u64_to_le_bytes(
            record_checksum(record_body(event)),
        ),
{
    lemma_auto_spec_u64_to_from_le_bytes();
    let r = record(event);
    assert(r.subrange(0, 4) =~= magic());
    assert(r.subrange(4, 20) =~= event.event_id@);
    assert(r.subrange(20, 84) =~= event.username@);
    assert(r.subrange(84, 92) =~= spec_u64_to_le_bytes(event.timestamp as u64));
    assert(r.subrange(92, 100) =~= spec_u64_to_le_bytes(event.generation as u64));
    assert(r.subrange(0, 104) =~= record_body(event));
    assert(r.subrange(104, 112) =~= spec_u64_to_le_bytes(record_checksum(record_body(event))));
}

/// What [`decode`] reads from what [`encode`] wrote is the event itself, without its sequence
/// number.
pub proof fn record_round_trip(event: SharedAuthEvent, read: SharedAuthEvent)
    requires
        recordable(event),
    ensures
        record_fault(record(event)) is None,
        record_says(record(event), read) <==> read == (SharedAuthEvent { seq: 0, ..event }),
{
    record_layout(event);
    lemma_auto_spec_u64_to_from_le_bytes();
    signed_survives(event.timestamp);
    signed_survives(event.generation);
    if record_says(record(event), read) {
        assert(read.event_id =~= event.event_id) by {
            assert forall|k: int| 0 <= k < EVENT_ID_BYTES implies read.event_id[k]
                == event.event_id[k] by {
                assert(read.event_id@[k] == event.event_id@[k]);
            }
        }
        assert(read.username =~= event.username) by {
            assert forall|k: int| 0 <= k < LOCK_USERNAME_BYTES implies read.username[k]
                == event.username[k] by {
                assert(read.username@[k] == event.username@[k]);
            }
        }
    }
}

/// An event that a hook may not record never reads back: its record is refused, whatever the
/// checksum says.
pub proof fn unrecordable_is_refused(event: SharedAuthEvent)
    requires
        !recordable(event),
    ensures
        record_fault(record(event)) is Some,
{
    record_layout(event);
}

/// What is recorded for a role always reads back: a name PostgreSQL allows, which is not empty, has
/// no NUL and at most 63 bytes, together with a known kind and known flags, is recordable.
pub proof fn admission_is_recordable(
    name: Seq<char>,
    kind: EventKind,
    flags: EventFlags,
    event: SharedAuthEvent,
)
    requires
        0 < encode_utf8(name).len() < LOCK_USERNAME_BYTES,
        forall|j: int| 0 <= j < encode_utf8(name).len() ==> encode_utf8(name)[j] != 0,
        auth_event::flags_known(flags.0),
        event.username@ == username::padded_name(encode_utf8(name)),
        EventKind::of_raw(event.kind) == Some(kind),
        event.flags == flags.0,
    ensures
        recordable(event),
{
    username::stored_name_reads_back(name, name);
}

/// How many complete records `len` bytes hold.
pub open spec fn complete_records(len: nat) -> nat {
    len / (RECORD_SIZE as nat)
}

/// Record number `i` of a file.
pub open spec fn record_at(file: Seq<u8>, i: int) -> Seq<u8> {
    file.subrange(i * RECORD_SIZE, (i + 1) * RECORD_SIZE)
}

/// The fault of the first record from number `from` on that has one.
pub open spec fn first_fault(file: Seq<u8>, from: nat) -> Option<JournalFault>
    decreases complete_records(file.len()) - from,
{
    if from >= complete_records(file.len()) {
        None
    } else if record_fault(record_at(file, from as int)) is Some {
        record_fault(record_at(file, from as int))
    } else {
        first_fault(file, from + 1)
    }
}

/// The fault of a file: that of its first untrustworthy complete record. A file that does not
/// exist has none, and an incomplete last record is not looked at.
pub open spec fn file_fault(file: Option<Seq<u8>>) -> Option<JournalFault> {
    match file {
        Some(bytes) => first_fault(bytes, 0),
        None => None,
    }
}

/// Position in a journal file that is being replayed.
#[derive(Clone, Copy, PartialEq, Eq, Debug)]
pub struct JournalReader {
    pub complete_records: u64,
    pub read_records: u64,
}

/// The length of the complete records in a file of `len` bytes. A longer file ends in a torn
/// append that was never confirmed to its producer: it is cut to this length.
pub fn complete_length(len: u64) -> (r: u64)
    ensures
        r == complete_records(len as nat) * RECORD_SIZE,
        r <= len,
        len - r < RECORD_SIZE,
{
    len - len % (RECORD_SIZE as u64)
}

impl JournalReader {
    /// Begins reading a file of `len` bytes.
    pub fn open(len: u64) -> (r: JournalReader)
        ensures
            r.complete_records == complete_records(len as nat),
            r.read_records == 0,
    {
        let complete: u64 = complete_length(len);
        assert(complete / 112 == len / 112) by (nonlinear_arith)
            requires
                complete == (len / 112) * 112,
        ;
        JournalReader { complete_records: complete / (RECORD_SIZE as u64), read_records: 0 }
    }

    /// Whether a complete record is left to be read.
    pub fn has_next(&self) -> (r: bool)
        ensures
            r == (self.read_records < self.complete_records),
    {
        self.read_records < self.complete_records
    }

    /// Takes the next record, which the caller has read from the file: `None` at the end, else
    /// what the record says. A record counts as read even when it cannot be trusted.
    pub fn next_event(&mut self, bytes: &[u8; RECORD_SIZE]) -> (r: Result<
        Option<SharedAuthEvent>,
        JournalError,
    >)
        ensures
            final(self).complete_records == old(self).complete_records,
            old(self).read_records >= old(self).complete_records ==> {
                &&& r matches Ok(None)
                &&& *final(self) == *old(self)
            },
            old(self).read_records < old(self).complete_records ==> {
                &&& final(self).read_records == old(self).read_records + 1
                &&& match r {
                    Ok(Some(event)) => record_fault(bytes@) is None && record_says(bytes@, event),
                    Ok(None) => false,
                    Err(JournalError::Corrupt(f)) => record_fault(bytes@) == Some(f),
                    Err(JournalError::Io(_)) => false,
                }
            },
    {
        if self.read_records >= self.complete_records {
            return Ok(None);
        }
        self.read_records = self.read_records + 1;
        match decode(bytes) {
            Ok(event) => Ok(Some(event)),
            Err(e) => Err(e),
        }
    }
}

fn record_from(file: &[u8], start: usize) -> (r: [u8; RECORD_SIZE])
    requires
        start + RECORD_SIZE <= file@.len(),
    ensures
        r@ == file@.subrange(start as int, start + RECORD_SIZE),
{
    let mut r: [u8; RECORD_SIZE] = [0u8; RECORD_SIZE];
    let mut i: usize = 0;
    while i < RECORD_SIZE
        invariant
            i <= RECORD_SIZE,
            start + RECORD_SIZE <= file.len(),
            forall|j: int| 0 <= j < i ==> r@[j] == file@[start + j],
        decreases RECORD_SIZE - i,
    {
        r[i] = file[start + i];
        i = i + 1;
    }
    assert(r@ =~= file@.subrange(start as int, start + RECORD_SIZE));
    r
}

/// Verifies one journal file, complete records only.
pub fn verify_file(file: &[u8]) -> (r: Result<(), JournalError>)
    ensures
        match r {
            Ok(()) => first_fault(file@, 0) is None,
            Err(JournalError::Corrupt(f)) => first_fault(file@, 0) == Some(f),
            Err(JournalError::Io(_)) => false,
        },
{
    let mut start: usize = 0;
    let ghost mut i: nat = 0;
    while file.len() - start >= RECORD_SIZE
        invariant
            start <= file@.len(),
            start == i * RECORD_SIZE,
            first_fault(file@, 0) == first_fault(file@, i),
        decreases file.len() - start,
    {
        let bytes = record_from(file, start);
        assert(i < complete_records(file@.len())) by (nonlinear_arith)
            requires
                i * 112 + 112 <= file@.len(),
                complete_records(file@.len()) == file@.len() / 112,
        ;
        assert((i + 1) * RECORD_SIZE == start + RECORD_SIZE) by (nonlinear_arith)
            requires
                start == i * RECORD_SIZE,
        ;
        assert(bytes@ == record_at(file@, i as int));
        match decode(&bytes) {
            Ok(_) => {},
            Err(e) => {
                return Err(e);
            },
        }
        start = start + RECORD_SIZE;
        proof {
            i = i + 1;
        }
    }
    assert(i >= complete_records(file@.len())) by (nonlinear_arith)
        requires
            file@.len() - i * 112 < 112,
            complete_records(file@.len()) == file@.len() / 112,
    ;
    Ok(())
}

/// Verifies both journal files, the one being replayed first. A file that does not exist is
/// passed as `None`.
pub fn verify_pending(processing: Option<&[u8]>, active: Option<&[u8]>) -> (r: Result<
    (),
    JournalError,
>)
    ensures
        ({
            let first = file_fault(
                match processing {
                    Some(b) => Some(b@),
                    None => None,
                },
            );
            let second = file_fault(
                match active {
                    Some(b) => Some(b@),
                    None => None,
                },
            );
            match r {
                Ok(()) => first is None && second is None,
                Err(JournalError::Corrupt(f)) => if first is Some {
                    first == Some(f)
                } else {
                    second == Some(f)
                },
                Err(JournalError::Io(_)) => false,
            }
        }),
{
    match processing {
        Some(file) => {
            match verify_file(file) {
                Ok(()) => {},
                Err(e) => {
                    return Err(e);
                },
            }
        },
        None => {},
    }
    match active {
        Some(file) => verify_file(file),
        None => Ok(()),
    }
}

/// Whether a journal file with these permission bits may be used: nobody but its owner has
/// access.
pub fn check_permissions(mode: u32) -> (r: Result<(), JournalError>)
    ensures
        r is Ok <==> mode & 0o077 == 0,
        r matches Err(e) ==> (e matches JournalError::Corrupt(f) && f
            == JournalFault::OpenPermissions),
{
    if mode & 0o077 != 0 {
        return Err(JournalError::Corrupt(JournalFault::OpenPermissions));
    }
    Ok(())
}

/// What rotation comes to.
#[derive(Clone, Copy, PartialEq, Eq, Debug, Structural)]
pub enum Rotation {
    /// A file is already being replayed: go on with it.
    Continue,
    /// Rename the active file and replay it.
    Rename,
    /// There is nothing to replay.
    Nothing,
}

/// Decides on rotation from whether a file is already being replayed and how long the active file
/// is, `None` when it does not exist.
pub fn rotate(processing_exists: bool, active_len: Option<u64>) -> (r: Rotation)
    ensures
        r == if processing_exists {
            Rotation::Continue
        } else if active_len matches Some(len) && len > 0 {
            Rotation::Rename
        } else {
            Rotation::Nothing
        },
{
    if processing_exists {
        return Rotation::Continue;
    }
    match active_len {
        Some(len) => {
            if len > 0 {
                Rotation::Rename
            } else {
                Rotation::Nothing
            }
        },
        None => Rotation::Nothing,
    }
}

/// Bytes and complete records waiting in the journal files.
#[derive(Clone, Copy, PartialEq, Eq, Debug)]
pub struct JournalStats {
    pub pending_bytes: i64,
    pub pending_records: i64,
}

/// The length of a file as the statistics count it.
pub open spec fn counted_length(len: Option<u64>) -> int {
    match len {
        Some(n) => arith::clamp_i64(n as int),
        None => 0,
    }
}

/// Sums up the two journal files from their lengths, `None` for one that cannot be looked at.
pub fn stats(processing_len: Option<u64>, active_len: Option<u64>) -> (r: JournalStats)
    ensures
        r.pending_bytes == arith::clamp_i64(
            counted_length(processing_len) + counted_length(active_len),
        ),
        r.pending_records == counted_length(processing_len) / (RECORD_SIZE as int)
            + counted_length(active_len) / (RECORD_SIZE as int),
{
    let a: i64 = match processing_len {
        Some(n) => arith::counter_to_i64(n),
        None => 0,
    };
    let b: i64 = match active_len {
        Some(n) => arith::counter_to_i64(n),
        None => 0,
    };
    JournalStats {
        pending_bytes: arith::saturating_add_i64(a, b),
        pending_records: arith::saturating_add_i64(
            a / (RECORD_SIZE as i64),
            b / (RECORD_SIZE as i64),
        ),
    }
}

/// The bytes of a journal to which `events` were appended in order.
pub open spec fn journal_of(events: Seq<SharedAuthEvent>) -> Seq<u8>
    decreases events.len(),
{
    if events.len() == 0 {
        Seq::empty()
    } else {
        journal_of(events.drop_last()) + record(events.last())
    }
}

/// A journal of whole records has their joint length, and holds each in its place.
pub proof fn journal_layout(events: Seq<SharedAuthEvent>)
    ensures
        journal_of(events).len() == events.len() * RECORD_SIZE,
        forall|i: int|
            0 <= i < events.len() ==> #[trigger] record_at(journal_of(events), i) == record(
                events[i],
            ),
    decreases events.len(),
{
    if events.len() > 0 {
        let before = events.drop_last();
        journal_layout(before);
        record_layout(events.last());
        let file = journal_of(events);
        assert(before.len() * 112 + 112 == events.len() * 112);
        assert forall|i: int| 0 <= i < events.len() implies #[trigger] record_at(file, i) == record(
            events[i],
        ) by {
            if i < before.len() {
                assert(0 <= i * 112 && (i + 1) * 112 <= before.len() * 112) by (nonlinear_arith)
                    requires
                        0 <= i < before.len(),
                ;
                assert(record_at(file, i) =~= record_at(journal_of(before), i));
                assert(before[i] == events[i]);
            } else {
                assert(record_at(file, i) =~= record(events.last()));
            }
        }
    }
}

/// Replay gives back what was appended: a journal of `events`, cut short anywhere in the record
/// that was being appended when the system stopped, has exactly these events as its complete
/// records, in order, and not one of them is refused.
pub proof fn replay_reads_what_was_appended(events: Seq<SharedAuthEvent>, torn: Seq<u8>)
    requires
        torn.len() < RECORD_SIZE,
        forall|i: int| 0 <= i < events.len() ==> recordable(#[trigger] events[i]),
    ensures
        complete_records((journal_of(events) + torn).len()) == events.len(),
        file_fault(Some(journal_of(events) + torn)) is None,
        forall|i: int, read: SharedAuthEvent|
            0 <= i < events.len() ==> (#[trigger] record_says(
                record_at(journal_of(events) + torn, i),
                read,
            ) <==> read == (SharedAuthEvent { seq: 0, ..events[i] })),
{
    let file = journal_of(events) + torn;
    journal_layout(events);
    assert(complete_records(file.len()) == events.len()) by (nonlinear_arith)
        requires
            file.len() == events.len() * 112 + torn.len(),
            torn.len() < 112,
            complete_records(file.len()) == file.len() / 112,
    ;
    assert forall|i: int| 0 <= i < events.len() implies #[trigger] record_at(file, i) == record(
        events[i],
    ) by {
        assert(0 <= i * 112 && (i + 1) * 112 <= events.len() * 112) by (nonlinear_arith)
            requires
                0 <= i < events.len(),
        ;
        assert(record_at(file, i) =~= record_at(journal_of(events), i));
    }
    assert forall|i: int, read: SharedAuthEvent| 0 <= i < events.len() implies (
    #[trigger] record_says(record_at(file, i), read) <==> read == (SharedAuthEvent {
        seq: 0,
        ..events[i]
    })) by {
        record_round_trip(events[i], read);
    }
    assert forall|i: int| 0 <= i < events.len() implies record_fault(
        #[trigger] record_at(file, i),
    ) is None by {
        record_round_trip(events[i], events[i]);
    }
    no_fault_from(file, 0);
}

proof fn no_fault_from(file: Seq<u8>, from: nat)
    requires
        forall|i: int|
            0 <= i < complete_records(file.len()) ==> record_fault(#[trigger] record_at(file, i))
                is None,
    ensures
        first_fault(file, from) is None,
    decreases complete_records(file.len()) - from,
{
    if from < complete_records(file.len()) {
        assert(record_fault(record_at(file, from as int)) is None);
        no_fault_from(file, from + 1);
    }
}

} // verus!
