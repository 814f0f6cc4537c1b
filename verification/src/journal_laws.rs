//! Laws of the journal: the format of a record, what is trusted, and how files are read and rotated.

use crate::auth_event::SharedAuthEvent;
use crate::auth_journal;
use crate::auth_journal::{JournalError, JournalFault, JournalReader, JournalStats, Rotation};
use crate::hashing;
use vstd::bytes::*;
use vstd::prelude::*;
use vstd::utf8::*;

verus! {

/// The format of a record, byte by byte, whatever the event is and whatever checksum it ends with.
pub proof fn record_format(event: SharedAuthEvent, sum: u64)
    ensures
        ({
            let r = auth_journal::record_ending(event, sum);
            &&& r.len() == 112
            &&& r[0] == 0x50 && r[1] == 0x50 && r[2] == 0x4A && r[3] == 0x31
            &&& forall|i: int| 0 <= i < 16 ==> r[4 + i] == #[trigger] event.event_id@[i]
            &&& forall|i: int| 0 <= i < 64 ==> r[20 + i] == #[trigger] event.username@[i]
            &&& r.subrange(84, 92) == spec_u64_to_le_bytes(event.timestamp as u64)
            &&& r.subrange(92, 100) == spec_u64_to_le_bytes(event.generation as u64)
            &&& r[100] == event.kind
            &&& r[101] == event.flags
            &&& r[102] == 0 && r[103] == 0
            &&& r.subrange(104, 112) == spec_u64_to_le_bytes(sum)
        }),
{
    lemma_auto_spec_u64_to_from_le_bytes();
    let r = auth_journal::record_ending(event, sum);
    assert forall|i: int| 0 <= i < 16 implies r[4 + i] == #[trigger] event.event_id@[i] by {}
    assert forall|i: int| 0 <= i < 64 implies r[20 + i] == #[trigger] event.username@[i] by {}
    assert(r.subrange(84, 92) =~= spec_u64_to_le_bytes(event.timestamp as u64));
    assert(r.subrange(92, 100) =~= spec_u64_to_le_bytes(event.generation as u64));
    assert(r.subrange(104, 112) =~= spec_u64_to_le_bytes(sum));
}

/// The checksum of a record is over everything that precedes it.
pub proof fn checksum_covers_the_rest(event: SharedAuthEvent)
    ensures
        ({
            let r = auth_journal::record(event);
            r.subrange(104, 112) == spec_u64_to_le_bytes(
                hashing::siphash13(
                    0x7061_7373_776f_7264,
                    0x7072_6f66_696c_6531,
                    r.subrange(0, 104),
                ),
            )
        }),
{
    let r = auth_journal::record(event);
    record_format(event, auth_journal::record_checksum(auth_journal::record_body(event)));
    lemma_auto_spec_u64_to_from_le_bytes();
    assert(r.subrange(0, 104) =~= auth_journal::record_body(event));
}

/// The stored name of a record is text: it has a byte before its first NUL, and what precedes that is
/// UTF-8.
pub open spec fn names_somebody(bytes: Seq<u8>, end: int) -> bool {
    &&& 20 < end <= 84
    &&& forall|j: int| 20 <= j < end ==> #[trigger] bytes[j] != 0
    &&& end < 84 ==> bytes[end] == 0
    &&& valid_utf8(bytes.subrange(20, end))
}

/// A record is trusted exactly when it begins as one, its checksum is that of what precedes it, it
/// names a role, and its kind and flags are known.
pub proof fn trust_is_exact(bytes: Seq<u8>)
    requires
        bytes.len() == 112,
    ensures
        auth_journal::record_fault(bytes) is None <==> {
            &&& bytes[0] == 0x50 && bytes[1] == 0x50 && bytes[2] == 0x4A && bytes[3] == 0x31
            &&& spec_u64_from_le_bytes(bytes.subrange(104, 112)) == hashing::siphash13(
                0x7061_7373_776f_7264,
                0x7072_6f66_696c_6531,
                bytes.subrange(0, 104),
            )
            &&& exists|end: int| #[trigger] names_somebody(bytes, end)
            &&& 1 <= bytes[100] <= 3
            &&& bytes[101] <= 1
        },
{
    let name = bytes.subrange(20, 84);
    let end = end_of(name);
    header_is_magic(bytes);
    crate::username::text_end_is_first_nul(name, end);
    assert(name.take(end) =~= bytes.subrange(20, 20 + end));
    if end > 0 && valid_utf8(name.take(end)) {
        assert forall|j: int| 20 <= j < 20 + end implies #[trigger] bytes[j] != 0 by {
            assert(name[j - 20] != 0);
        }
        assert(names_somebody(bytes, 20 + end));
    }
    if exists|e: int| #[trigger] names_somebody(bytes, e) {
        let e = choose|e: int| #[trigger] names_somebody(bytes, e);
        assert forall|j: int| 0 <= j < e - 20 implies name[j] != 0 by {
            assert(bytes[20 + j] != 0);
        }
        crate::username::text_end_is_first_nul(name, e - 20);
        assert(bytes.subrange(20, e) =~= name.take(e - 20));
    }
}

/// Where the first NUL is; the length when there is none.
proof fn end_of(bytes: Seq<u8>) -> (end: int)
    ensures
        0 <= end <= bytes.len(),
        forall|j: int| 0 <= j < end ==> bytes[j] != 0,
        end < bytes.len() ==> bytes[end] == 0,
    decreases bytes.len(),
{
    if bytes.len() == 0 || bytes[0] == 0 {
        0
    } else {
        let rest = bytes.drop_first();
        let end = end_of(rest);
        assert forall|j: int| 0 <= j < end + 1 implies bytes[j] != 0 by {
            if j > 0 {
                assert(rest[j - 1] == bytes[j]);
            }
        }
        end + 1
    }
}

proof fn header_is_magic(bytes: Seq<u8>)
    requires
        bytes.len() == 112,
    ensures
        bytes.subrange(0, 4) == auth_journal::magic() <==> bytes[0] == 0x50 && bytes[1] == 0x50
            && bytes[2] == 0x4A && bytes[3] == 0x31,
{
    let head = bytes.subrange(0, 4);
    assert(head[0] == bytes[0] && head[1] == bytes[1] && head[2] == bytes[2] && head[3]
        == bytes[3]);
    if bytes[0] == 0x50 && bytes[1] == 0x50 && bytes[2] == 0x4A && bytes[3] == 0x31 {
        assert(head =~= auth_journal::magic());
    }
}

/// What cannot be trusted is refused for the first reason there is: its beginning, then its checksum,
/// then the name, the kind and the flags.
pub proof fn first_fault_is_named(bytes: Seq<u8>, sum: u64)
    requires
        bytes.len() == 112,
    ensures
        ({
            let fault = auth_journal::fault_given(bytes, sum);
            let head = bytes[0] == 0x50 && bytes[1] == 0x50 && bytes[2] == 0x4A && bytes[3]
                == 0x31;
            let summed = spec_u64_from_le_bytes(bytes.subrange(104, 112)) == sum;
            let kind = 1 <= bytes[100] <= 3;
            let flags = bytes[101] <= 1;
            &&& fault == Some(JournalFault::InvalidHeader) <==> !head
            &&& fault == Some(JournalFault::ChecksumMismatch) <==> head && !summed
            &&& fault == Some(JournalFault::InvalidUsername) ==> head && summed
            &&& fault == Some(JournalFault::UnknownKind) ==> head && summed && !kind
            &&& fault == Some(JournalFault::UnknownFlags) ==> head && summed && kind && !flags
            &&& fault is None ==> head && summed && kind && flags
            &&& head && summed && !kind ==> fault == Some(JournalFault::UnknownKind) || fault
                == Some(JournalFault::InvalidUsername)
        }),
{
    header_is_magic(bytes);
}

/// What is read from a trusted record is what its bytes say.
pub proof fn record_is_read_by_its_bytes(bytes: Seq<u8>, event: SharedAuthEvent)
    requires
        bytes.len() == 112,
        auth_journal::record_says(bytes, event),
    ensures
        forall|i: int| 0 <= i < 16 ==> bytes[4 + i] == #[trigger] event.event_id@[i],
        forall|i: int| 0 <= i < 64 ==> bytes[20 + i] == #[trigger] event.username@[i],
        event.timestamp == spec_u64_from_le_bytes(bytes.subrange(84, 92)) as i64,
        event.generation == spec_u64_from_le_bytes(bytes.subrange(92, 100)) as i64,
        event.kind == bytes[100],
        event.flags == bytes[101],
{
    assert forall|i: int| 0 <= i < 16 implies bytes[4 + i] == #[trigger] event.event_id@[i] by {
        assert(bytes.subrange(4, 20)[i] == bytes[4 + i]);
    }
    assert forall|i: int| 0 <= i < 64 implies bytes[20 + i] == #[trigger] event.username@[i] by {
        assert(bytes.subrange(20, 84)[i] == bytes[20 + i]);
    }
}

/// Record number `i` of a file.
pub open spec fn nth(file: Seq<u8>, i: int) -> Seq<u8> {
    file.subrange(i * 112, (i + 1) * 112)
}

/// A file verifies exactly when each of its complete records does; the fault of one that does not is
/// that of the first such record. A missing file verifies, and so does what is left of a torn append.
pub proof fn file_verifies_record_by_record(file: Seq<u8>)
    ensures
        auth_journal::file_fault(Some(file)) is None <==> forall|i: int|
            0 <= i < (file.len() / 112) ==> auth_journal::record_fault(#[trigger] nth(file, i))
                is None,
        auth_journal::file_fault(Some(file)) matches Some(fault) ==> exists|i: int|
            {
                &&& 0 <= i < file.len() / 112
                &&& auth_journal::record_fault(#[trigger] nth(file, i)) == Some(fault)
                &&& forall|j: int|
                    0 <= j < i ==> auth_journal::record_fault(#[trigger] nth(file, j)) is None
            },
        auth_journal::file_fault(None) is None,
        file.len() < 112 ==> auth_journal::file_fault(Some(file)) is None,
{
    fault_from(file, 0);
}

proof fn fault_from(file: Seq<u8>, from: nat)
    ensures
        auth_journal::first_fault(file, from) is None <==> forall|i: int|
            from <= i < (file.len() / 112) ==> auth_journal::record_fault(#[trigger] nth(file, i))
                is None,
        auth_journal::first_fault(file, from) matches Some(fault) ==> exists|i: int|
            {
                &&& from <= i < file.len() / 112
                &&& auth_journal::record_fault(#[trigger] nth(file, i)) == Some(fault)
                &&& forall|j: int|
                    from <= j < i ==> auth_journal::record_fault(#[trigger] nth(file, j)) is None
            },
    decreases file.len() / 112 - from,
{
    if from < file.len() / 112 {
        assert(nth(file, from as int) == auth_journal::record_at(file, from as int));
        if auth_journal::record_fault(nth(file, from as int)) is None {
            fault_from(file, from + 1);
            if auth_journal::first_fault(file, from + 1) is None {
                assert forall|i: int| from <= i < (file.len() / 112) implies
                    auth_journal::record_fault(#[trigger] nth(file, i)) is None by {
                    if i > from {
                    }
                }
            } else {
                let fault = auth_journal::first_fault(file, from + 1)->0;
                let i = choose|i: int|
                    {
                        &&& from + 1 <= i < file.len() / 112
                        &&& auth_journal::record_fault(#[trigger] nth(file, i)) == Some(fault)
                        &&& forall|j: int|
                            from + 1 <= j < i ==> auth_journal::record_fault(
                                #[trigger] nth(file, j),
                            ) is None
                    };
                assert(auth_journal::record_fault(nth(file, i)) is Some);
            }
        }
    }
}

/// Both files must verify, and the one that is being replayed is complained about first.
pub proof fn both_files_must_verify(
    processing: Option<&[u8]>,
    active: Option<&[u8]>,
    r: Result<(), JournalError>,
)
    requires
        call_ensures(auth_journal::verify_pending, (processing, active), r),
    ensures
        ({
            let first = match processing {
                Some(b) => auth_journal::file_fault(Some(b@)),
                None => None,
            };
            let second = match active {
                Some(b) => auth_journal::file_fault(Some(b@)),
                None => None,
            };
            &&& r is Ok <==> first is None && second is None
            &&& first is Some ==> r == Err::<(), JournalError>(JournalError::Corrupt(first->0))
            &&& first is None && second is Some ==> r == Err::<(), JournalError>(
                JournalError::Corrupt(second->0),
            )
        }),
{
}

/// A file is cut to its complete records: no more than a torn record is lost, and cutting again loses
/// nothing. A reader begins before the first of them and has one to read while there is one.
pub proof fn torn_records_are_cut(
    len: u64,
    cut: u64,
    again: u64,
    reader: JournalReader,
    more: bool,
)
    requires
        call_ensures(auth_journal::complete_length, (len,), cut),
        call_ensures(auth_journal::complete_length, (cut,), again),
        call_ensures(JournalReader::open, (len,), reader),
        call_ensures(JournalReader::has_next, (&reader,), more),
    ensures
        cut <= len < cut + 112,
        cut % 112 == 0,
        again == cut,
        reader.read_records == 0,
        reader.complete_records * 112 == cut,
        more <==> cut > 0,
{
}

/// A file that others may touch in any way is refused, and any other is accepted.
pub proof fn only_private_files_are_used(mode: u32, r: Result<(), JournalError>)
    requires
        call_ensures(auth_journal::check_permissions, (mode,), r),
    ensures
        r is Ok <==> mode & 0o040 == 0 && mode & 0o020 == 0 && mode & 0o010 == 0 && mode & 0o004
            == 0 && mode & 0o002 == 0 && mode & 0o001 == 0,
        r is Err ==> r == Err::<(), JournalError>(
            JournalError::Corrupt(JournalFault::OpenPermissions),
        ),
{
    assert(mode & 0o077 == 0 <==> mode & 0o040 == 0 && mode & 0o020 == 0 && mode & 0o010 == 0
        && mode & 0o004 == 0 && mode & 0o002 == 0 && mode & 0o001 == 0) by (bit_vector);
}

/// A replay that was begun goes on before anything is rotated; otherwise an active file that is not
/// empty is rotated, and nothing else is.
pub proof fn replay_goes_on_before_rotation(processing: bool, active: Option<u64>, r: Rotation)
    requires
        call_ensures(auth_journal::rotate, (processing, active), r),
    ensures
        r == Rotation::Continue <==> processing,
        r == Rotation::Rename <==> !processing && active is Some && active->0 >= 1,
        r == Rotation::Nothing <==> !processing && (active is None || active->0 == 0),
{
}

/// What waits is the sum over both files, in bytes and in complete records.
pub proof fn waiting_is_summed_up(processing: Option<u64>, active: Option<u64>, s: JournalStats)
    requires
        call_ensures(auth_journal::stats, (processing, active), s),
        processing matches Some(n) ==> n <= 4611686018427387903,
        active matches Some(n) ==> n <= 4611686018427387903,
    ensures
        ({
            let a = match processing {
                Some(n) => n as int,
                None => 0,
            };
            let b = match active {
                Some(n) => n as int,
                None => 0,
            };
            &&& s.pending_bytes == a + b
            &&& s.pending_records == a / 112 + b / 112
        }),
{
}

/// The two files lie in the data directory under different names, with one `/` between; without a data
/// directory there is no path.
pub proof fn files_lie_in_the_data_directory(
    dir: &str,
    active: Result<String, JournalError>,
    processing: Result<String, JournalError>,
    nowhere: Result<String, JournalError>,
)
    requires
        call_ensures(auth_journal::active_path, (Some(dir),), active),
        call_ensures(auth_journal::processing_path, (Some(dir),), processing),
        call_ensures(auth_journal::active_path, (None,), nowhere),
    ensures
        active is Ok,
        processing is Ok,
        active->Ok_0@ != processing->Ok_0@,
        dir@.is_prefix_of(active->Ok_0@),
        dir@.is_prefix_of(processing->Ok_0@),
        dir@.len() > 0 && dir@.last() != '/' ==> active->Ok_0@[dir@.len() as int] == '/',
        dir@.len() == 0 || dir@.last() == '/' ==> active->Ok_0@
            == dir@ + "password_profile_auth_events.active"@,
        nowhere is Err,
{
    reveal_strlit("password_profile_auth_events.active");
    reveal_strlit("password_profile_auth_events.processing");
    let a = active->Ok_0@;
    let p = processing->Ok_0@;
    assert(a.len() != p.len());
    assert(dir@ =~= a.subrange(0, dir@.len() as int));
    assert(dir@ =~= p.subrange(0, dir@.len() as int));
}

/// A reader hands out a record exactly when one is left and it can be trusted, counts it as read either
/// way, and at the end stays where it is.
pub proof fn reader_hands_out_trusted_records(
    reader: &mut JournalReader,
    bytes: &[u8; 112],
    r: Result<Option<SharedAuthEvent>, JournalError>,
)
    requires
        call_ensures(JournalReader::next_event, (reader, bytes), r),
    ensures
        ({
            let left = old(reader).read_records < old(reader).complete_records;
            let fault = auth_journal::record_fault(bytes@);
            &&& r == Ok::<Option<SharedAuthEvent>, JournalError>(None) <==> !left
            &&& r is Err <==> left && fault is Some
            &&& r matches Ok(Some(event)) ==> left && fault is None && auth_journal::record_says(
                bytes@,
                event,
            )
            &&& final(reader).read_records == old(reader).read_records + if left {
                1int
            } else {
                0
            }
            &&& final(reader).complete_records == old(reader).complete_records
        }),
{
}

} // verus!
