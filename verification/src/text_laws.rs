//! Laws of stored names, rendered numbers and cleaned text.

use crate::arith;
use crate::text;
use crate::username;
use crate::username::LOCK_USERNAME_BYTES;
use vstd::prelude::*;
use vstd::utf8::*;

verus! {

/// Saturated sums and differences are the true ones where those fit, and the nearest end of the range
/// where they do not.
pub proof fn saturation_is_the_nearest(a: i64, b: i64, c: u64, sum: i64, difference: i64, count: i64)
    requires
        call_ensures(arith::saturating_add_i64, (a, b), sum),
        call_ensures(arith::saturating_sub_i64, (a, b), difference),
        call_ensures(arith::counter_to_i64, (c,), count),
    ensures
        i64::MIN <= a + b <= i64::MAX ==> sum == a + b,
        a + b > i64::MAX ==> sum == i64::MAX,
        a + b < i64::MIN ==> sum == i64::MIN,
        i64::MIN <= a - b <= i64::MAX ==> difference == a - b,
        a - b > i64::MAX ==> difference == i64::MAX,
        a - b < i64::MIN ==> difference == i64::MIN,
        c <= i64::MAX ==> count == c,
        c > i64::MAX ==> count == i64::MAX,
{
}

/// The number that decimal digits stand for.
pub open spec fn value_of(digits: Seq<char>) -> int
    decreases digits.len(),
{
    if digits.len() == 0 {
        0
    } else {
        10 * value_of(digits.drop_last()) + (digits.last() as int - '0' as int)
    }
}

/// Rendered digits read back as the number they were rendered from, and begin with a zero only for
/// zero itself.
pub proof fn digits_read_back(n: nat)
    ensures
        value_of(text::decimal_digits(n)) == n,
        text::decimal_digits(n).len() >= 1,
        n > 0 ==> text::decimal_digits(n)[0] != '0',
        n < 10 ==> text::decimal_digits(n).len() == 1,
        forall|i: int|
            0 <= i < text::decimal_digits(n).len() ==> '0' <= #[trigger] text::decimal_digits(n)[i]
                <= '9',
    decreases n,
{
    let digits = text::decimal_digits(n);
    reveal_with_fuel(value_of, 2);
    if n < 10 {
        assert(digits.drop_last() =~= Seq::<char>::empty());
    } else {
        let rest = text::decimal_digits(n / 10);
        digits_read_back(n / 10);
        assert(digits.drop_last() =~= rest);
        assert forall|i: int| 0 <= i < digits.len() implies '0' <= #[trigger] digits[i] <= '9' by {
            if i < rest.len() {
                assert(digits[i] == rest[i]);
            }
        }
    }
}

/// A rendered number bears a sign exactly when it is negative, and reads back as itself.
pub proof fn number_reads_back(n: int)
    ensures
        n >= 0 ==> value_of(text::decimal(n)) == n && text::decimal(n)[0] != '-',
        n < 0 ==> text::decimal(n)[0] == '-' && -value_of(text::decimal(n).drop_first()) == n,
{
    if n < 0 {
        digits_read_back((-n) as nat);
        assert(text::decimal(n).drop_first() =~= text::decimal_digits((-n) as nat));
    } else {
        digits_read_back(n as nat);
    }
}

/// Different numbers are rendered differently.
pub proof fn numbers_are_told_apart(a: int, b: int)
    requires
        text::decimal(a) == text::decimal(b),
    ensures
        a == b,
{
    number_reads_back(a);
    number_reads_back(b);
}

/// Trimming takes off whitespace at both ends and nothing else: what is left is a part of the text,
/// everything around it is whitespace, and it neither begins nor ends with any.
pub proof fn trimming_only_takes_whitespace(s: Seq<char>) -> (ends: (int, int))
    ensures
        0 <= ends.0 <= ends.1 <= s.len(),
        text::trimmed(s) == s.subrange(ends.0, ends.1),
        forall|i: int| 0 <= i < ends.0 ==> text::char_whitespace(#[trigger] s[i]),
        forall|i: int| ends.1 <= i < s.len() ==> text::char_whitespace(#[trigger] s[i]),
        text::trimmed(s).len() > 0 ==> !text::char_whitespace(text::trimmed(s)[0])
            && !text::char_whitespace(text::trimmed(s).last()),
    decreases s.len(),
{
    if s.len() == 0 {
        assert(s.subrange(0, 0) =~= s);
        (0, 0)
    } else if text::char_whitespace(s[0]) {
        let inner = trimming_only_takes_whitespace(s.drop_first());
        assert(s.drop_first().subrange(inner.0, inner.1) =~= s.subrange(inner.0 + 1, inner.1 + 1));
        assert forall|i: int| 0 <= i < inner.0 + 1 implies text::char_whitespace(
            #[trigger] s[i],
        ) by {
            if i > 0 {
                assert(s.drop_first()[i - 1] == s[i]);
            }
        }
        assert forall|i: int| inner.1 + 1 <= i < s.len() implies text::char_whitespace(
            #[trigger] s[i],
        ) by {
            assert(s.drop_first()[i - 1] == s[i]);
        }
        (inner.0 + 1, inner.1 + 1)
    } else if text::char_whitespace(s.last()) {
        let inner = trimming_only_takes_whitespace(s.drop_last());
        assert(s.drop_last().subrange(inner.0, inner.1) =~= s.subrange(inner.0, inner.1));
        assert forall|i: int| 0 <= i < inner.0 implies text::char_whitespace(#[trigger] s[i]) by {
            assert(s.drop_last()[i] == s[i]);
        }
        assert forall|i: int| inner.1 <= i < s.len() implies text::char_whitespace(
            #[trigger] s[i],
        ) by {
            if i < s.len() - 1 {
                assert(s.drop_last()[i] == s[i]);
            }
        }
        inner
    } else {
        assert(s.subrange(0, s.len() as int) =~= s);
        (0, s.len() as int)
    }
}

/// Removing NUL removes every NUL and nothing else, wherever it stands.
pub proof fn removing_nul_keeps_the_rest(a: Seq<char>, b: Seq<char>)
    ensures
        text::nul_removed(a + b) == text::nul_removed(a) + text::nul_removed(b),
        !text::nul_removed(a).contains('\0'),
        !a.contains('\0') ==> text::nul_removed(a) == a,
        text::nul_removed(a).len() <= a.len(),
{
    let p = |c: char| c != '\0';
    Seq::filter_distributes_over_add(a, b, p);
    a.lemma_filter_len(p);
    if text::nul_removed(a).contains('\0') {
        a.lemma_filter_contains_rev(p, '\0');
        let i = choose|i: int| 0 <= i < text::nul_removed(a).len() && text::nul_removed(a)[i] == '\0';
        a.lemma_filter_pred(p, i);
    }
    if !a.contains('\0') {
        nothing_to_remove(a);
    }
}

proof fn nothing_to_remove(s: Seq<char>)
    requires
        !s.contains('\0'),
    ensures
        text::nul_removed(s) == s,
    decreases s.len(),
{
    reveal(Seq::filter);
    if s.len() > 0 {
        let before = s.drop_last();
        if before.contains('\0') {
            let i = choose|i: int| 0 <= i < before.len() && before[i] == '\0';
            assert(s[i] == '\0');
        }
        nothing_to_remove(before);
        assert(s[s.len() - 1] != '\0');
        assert(before.push(s.last()) =~= s);
    }
}

/// A name is stored as its bytes, 63 of them at most, with NUL after them up to 64.
pub proof fn name_is_stored_padded(name: &str, stored: [u8; LOCK_USERNAME_BYTES], i: int)
    requires
        call_ensures(username::encode_username, (name,), stored),
        0 <= i < 64,
    ensures
        stored@.len() == 64,
        i < 63 && i < encode_utf8(name@).len() ==> stored@[i] == encode_utf8(name@)[i],
        i == 63 || i >= encode_utf8(name@).len() ==> stored@[i] == 0,
        stored == username::encoded_name(name@),
{
}

/// Names that fit are told apart by what is stored of them.
pub proof fn stored_names_are_told_apart(
    a: Seq<char>,
    b: Seq<char>,
    x: [u8; LOCK_USERNAME_BYTES],
    y: [u8; LOCK_USERNAME_BYTES],
)
    requires
        x@ == username::padded_name(encode_utf8(a)),
        y@ == username::padded_name(encode_utf8(b)),
        encode_utf8(a).len() <= 63,
        encode_utf8(b).len() <= 63,
        forall|i: int| 0 <= i < encode_utf8(a).len() ==> encode_utf8(a)[i] != 0,
        forall|i: int| 0 <= i < encode_utf8(b).len() ==> encode_utf8(b)[i] != 0,
    ensures
        x == y <==> a == b,
{
    let p = encode_utf8(a);
    let q = encode_utf8(b);
    if x == y {
        username::text_end_is_first_nul(x@, p.len() as int);
        username::text_end_is_first_nul(y@, q.len() as int);
        assert forall|i: int| 0 <= i < p.len() implies p[i] == q[i] by {
            assert(x@[i] == p[i]);
            assert(y@[i] == q[i]);
        }
        assert(p =~= q);
        username::utf8_is_injective(a, b);
    }
    if a == b {
        username::name_bytes_decide(x, y);
    }
}

/// A stored name is read up to its first NUL: nothing is read from bytes that begin with NUL, what is
/// read has the bytes before it, and bytes that are not text are refused.
pub proof fn name_is_read_up_to_its_end(bytes: &[u8], r: Option<String>, end: int)
    requires
        call_ensures(username::username_from_bytes, (bytes,), r),
        0 <= end <= bytes@.len(),
        forall|j: int| 0 <= j < end ==> bytes@[j] != 0,
        end < bytes@.len() ==> bytes@[end] == 0,
    ensures
        r is Some <==> end > 0 && valid_utf8(bytes@.subrange(0, end)),
        r matches Some(name) ==> encode_utf8(name@) == bytes@.subrange(0, end),
{
    username::text_end_is_first_nul(bytes@, end);
}

} // verus!
