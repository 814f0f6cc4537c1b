//! Digests: SipHash-1-3 for checksums and advisory keys, bcrypt and MD5 for stored passwords.

use crate::text;
use std::hash::Hasher;
use vstd::prelude::*;

verus! {

/// The SipHash-1-3 digest of `bytes` under the two key words.
pub uninterp spec fn siphash13(k0: u64, k1: u64, bytes: Seq<u8>) -> u64;

/// What [`bcrypt::verify`] answers for `password` against the stored text `stored`: `None` when
/// it reports an error, otherwise whether the password matches.
pub uninterp spec fn bcrypt_verdict(password: Seq<char>, stored: Seq<char>) -> Option<bool>;

/// The lowercase hexadecimal rendering of the MD5 digest of `bytes`.
pub uninterp spec fn md5_text(bytes: Seq<u8>) -> Seq<char>;

/// A bcrypt text of version 2b made with this cost.
pub open spec fn made_with_cost(stored: Seq<char>, cost: int) -> bool {
    &&& stored.len() == 60
    &&& text::begins_with(stored, "$2b$"@)
    &&& stored[4] == text::digit_char(cost / 10)
    &&& stored[5] == text::digit_char(cost % 10)
    &&& stored[6] == '$'
}

/// [`bcrypt::BcryptError`], carried through from [`bcrypt::hash`] to where it is reported.
#[verifier::external_type_specification]
#[verifier::external_body]
pub struct ExBcryptError(bcrypt::BcryptError);

/// Feeds `bytes` to a [`siphasher::sip::SipHasher13`] made with the two key words and returns
/// what it finishes with. The contract names that digest and claims nothing else of it.
#[verifier::external_body]
pub(crate) fn siphash(k0: u64, k1: u64, bytes: &[u8]) -> (r: u64)
    ensures
        r == siphash13(k0, k1, bytes@),
{
    let mut hasher = siphasher::sip::SipHasher13::new_with_keys(k0, k1);
    hasher.write(bytes);
    hasher.finish()
}

/// Calls [`bcrypt::verify`]. The contract names its answer: an error is `None`.
#[verifier::external_body]
pub(crate) fn bcrypt_verify(password: &str, stored: &str) -> (r: Option<bool>)
    ensures
        r == bcrypt_verdict(password@, stored@),
{
    bcrypt::verify(password, stored).ok()
}

/// Calls [`bcrypt::hash`]. The salt is random, so the text differs from call to call. What holds
/// of every outcome is claimed: a cost outside 4 to 31 is refused, and a text that comes back
/// states version 2b and the cost, and is one that [`bcrypt::verify`] accepts for the same
/// password. Whether the system's randomness is available is left unsaid.
#[verifier::external_body]
pub(crate) fn bcrypt_hash(password: &str, cost: u32) -> (r: Result<String, bcrypt::BcryptError>)
    ensures
        !(4 <= cost <= 31) ==> r is Err,
        r matches Ok(stored) ==> {
            &&& made_with_cost(stored@, cost as int)
            &&& bcrypt_verdict(password@, stored@) == Some(true)
        },
{
    bcrypt::hash(password, cost)
}

/// Renders a [`bcrypt::BcryptError`] through its `Display`. Nothing is claimed of the text.
#[verifier::external_body]
pub(crate) fn bcrypt_error_text(error: &bcrypt::BcryptError) -> (r: String) {
    format!("{}", error)
}

/// Calls [`md5::compute`] and renders the digest with `{:x}`. The contract names the text and
/// claims what its formatting code shows: two lowercase hexadecimal digits for each of the
/// digest's sixteen bytes.
#[verifier::external_body]
pub(crate) fn md5_hex(bytes: &[u8]) -> (r: String)
    ensures
        r@ == md5_text(bytes@),
        r@.len() == 32,
        forall|i: int|
            0 <= i < 32 ==> ('0' <= #[trigger] r@[i] <= '9' || 'a' <= r@[i] <= 'f'),
{
    format!("{:x}", md5::compute(bytes))
}

} // verus!
