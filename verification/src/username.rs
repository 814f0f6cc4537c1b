//! Fixed-size, NUL-padded role names as they are stored in shared memory and on disk.

use crate::text;
use vstd::prelude::*;
use vstd::utf8::*;

verus! {

/// Bytes of a stored role name, the terminating NUL included.
pub const LOCK_USERNAME_BYTES: usize = 64;

/// `utf8` cut to 63 bytes and padded with NUL to 64.
pub open spec fn padded_name(utf8: Seq<u8>) -> Seq<u8> {
    Seq::new(
        LOCK_USERNAME_BYTES as nat,
        |i: int|
            if i < LOCK_USERNAME_BYTES - 1 && i < utf8.len() {
                utf8[i]
            } else {
                0u8
            },
    )
}

/// The stored form of a role name: its UTF-8 bytes, cut to 63 and padded with NUL.
pub open spec fn encoded_name(username: Seq<char>) -> [u8; LOCK_USERNAME_BYTES] {
    choose|a: [u8; LOCK_USERNAME_BYTES]| #[trigger] a@ == padded_name(encode_utf8(username))
}

/// Two arrays with the same bytes are the same array.
pub proof fn name_bytes_decide(a: [u8; LOCK_USERNAME_BYTES], b: [u8; LOCK_USERNAME_BYTES])
    requires
        a@ == b@,
    ensures
        a == b,
{
    assert(a =~= b) by {
        assert forall|k: int| 0 <= k < LOCK_USERNAME_BYTES implies a[k] == b[k] by {
            assert(a@[k] == b@[k]);
        }
    }
}

/// Encodes a role name: its UTF-8 bytes, cut to 63 and padded with NUL.
pub fn encode_username(username: &str) -> (buf: [u8; LOCK_USERNAME_BYTES])
    ensures
        buf@ == padded_name(encode_utf8(username@)),
        buf == encoded_name(username@),
{
    let bytes = username.as_bytes();
    let mut buf: [u8; LOCK_USERNAME_BYTES] = [0u8; LOCK_USERNAME_BYTES];
    let mut i: usize = 0;
    while i < bytes.len() && i < LOCK_USERNAME_BYTES - 1
        invariant
            i <= bytes@.len(),
            i <= LOCK_USERNAME_BYTES - 1,
            buf@.len() == LOCK_USERNAME_BYTES,
            forall|j: int| 0 <= j < i ==> buf@[j] == bytes@[j],
            forall|j: int| i <= j < LOCK_USERNAME_BYTES ==> buf@[j] == 0,
        decreases LOCK_USERNAME_BYTES - i,
    {
        buf[i] = bytes[i];
        i = i + 1;
    }
    assert(buf@ =~= padded_name(bytes@));
    proof {
        name_bytes_decide(buf, encoded_name(username@));
    }
    buf
}

/// How many bytes precede the first NUL; the whole length when there is none.
pub open spec fn text_end(bytes: Seq<u8>) -> int
    decreases bytes.len(),
{
    if bytes.len() == 0 || bytes[0] == 0 {
        0
    } else {
        1 + text_end(bytes.drop_first())
    }
}

/// The stored bytes hold a name: something precedes the first NUL, and it is UTF-8.
pub open spec fn holds_name(bytes: Seq<u8>) -> bool {
    text_end(bytes) > 0 && valid_utf8(bytes.take(text_end(bytes)))
}

/// `text_end` is the first NUL, or the length.
pub proof fn text_end_is_first_nul(bytes: Seq<u8>, end: int)
    requires
        0 <= end <= bytes.len(),
        forall|j: int| 0 <= j < end ==> bytes[j] != 0,
        end < bytes.len() ==> bytes[end] == 0,
    ensures
        text_end(bytes) == end,
    decreases bytes.len(),
{
    if end > 0 {
        let rest = bytes.drop_first();
        assert forall|j: int| 0 <= j < end - 1 implies rest[j] != 0 by {
            assert(bytes[j + 1] != 0);
        }
        text_end_is_first_nul(rest, end - 1);
    }
}

/// How many bytes precede the first NUL.
pub fn name_length(bytes: &[u8]) -> (end: usize)
    ensures
        end == text_end(bytes@),
        end <= bytes@.len(),
{
    let mut end: usize = 0;
    while end < bytes.len() && bytes[end] != 0
        invariant
            end <= bytes@.len(),
            forall|j: int| 0 <= j < end ==> bytes@[j] != 0,
        decreases bytes.len() - end,
    {
        end = end + 1;
    }
    proof {
        text_end_is_first_nul(bytes@, end as int);
    }
    end
}

/// Whether the stored bytes hold a name.
pub fn is_name(bytes: &[u8]) -> (r: bool)
    ensures
        r == holds_name(bytes@),
{
    let end: usize = name_length(bytes);
    if end == 0 {
        return false;
    }
    let name = vstd::slice::slice_subrange(bytes, 0, end);
    assert(name@ =~= bytes@.take(end as int));
    text::text_from_utf8(name).is_some()
}

/// Reads a stored name back: the text before the first NUL, or `None` when that is empty or not
/// UTF-8.
pub fn username_from_bytes(bytes: &[u8]) -> (r: Option<String>)
    ensures
        r is Some <==> holds_name(bytes@),
        r matches Some(name) ==> encode_utf8(name@) == bytes@.take(text_end(bytes@)),
{
    let end: usize = name_length(bytes);
    if end == 0 {
        return None;
    }
    let name = vstd::slice::slice_subrange(bytes, 0, end);
    assert(name@ =~= bytes@.take(end as int));
    match text::text_from_utf8(name) {
        Some(s) => Some(s.to_string()),
        None => None,
    }
}

/// Whether two stored names are the same bytes.
pub fn same_name(a: &[u8; LOCK_USERNAME_BYTES], b: &[u8; LOCK_USERNAME_BYTES]) -> (r: bool)
    ensures
        r == (*a == *b),
{
    let mut i: usize = 0;
    while i < LOCK_USERNAME_BYTES
        invariant
            i <= LOCK_USERNAME_BYTES,
            forall|j: int| 0 <= j < i ==> a@[j] == b@[j],
        decreases LOCK_USERNAME_BYTES - i,
    {
        if a[i] != b[i] {
            assert(a@[i as int] != b@[i as int]);
            return false;
        }
        i = i + 1;
    }
    assert(a@ =~= b@);
    proof {
        name_bytes_decide(*a, *b);
    }
    true
}

/// Two texts with the same UTF-8 encoding are the same text.
pub proof fn utf8_is_injective(a: Seq<char>, b: Seq<char>)
    requires
        encode_utf8(a) == encode_utf8(b),
    ensures
        a == b,
{
    encode_utf8_decode_utf8(a);
    encode_utf8_decode_utf8(b);
}

/// A non-empty name of at most 63 bytes without NUL is read back exactly as it was stored.
pub proof fn stored_name_reads_back(username: Seq<char>, read: Seq<char>)
    requires
        0 < encode_utf8(username).len() < LOCK_USERNAME_BYTES,
        forall|j: int| 0 <= j < encode_utf8(username).len() ==> encode_utf8(username)[j] != 0,
    ensures
        holds_name(padded_name(encode_utf8(username))),
        encode_utf8(read) == padded_name(encode_utf8(username)).take(
            text_end(padded_name(encode_utf8(username))),
        ) ==> read == username,
{
    let utf8 = encode_utf8(username);
    let stored = padded_name(utf8);
    text_end_is_first_nul(stored, utf8.len() as int);
    assert(stored.take(utf8.len() as int) =~= utf8);
    encode_utf8_valid_utf8(username);
    if encode_utf8(read) == utf8 {
        utf8_is_injective(read, username);
    }
}

} // verus!
