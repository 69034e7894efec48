//! Run identifiers and the time they carry.
//!
//! An identifier is 128 bits: a creation time in milliseconds since the Unix
//! epoch in the upper 48, and 80 random bits below. Its text form and the
//! calendar forms of its time come from the `ulid` and `chrono` crates.
use crate::text::two_digits;
use vstd::prelude::*;

verus! {

/// One more than the largest creation time an identifier can carry.
pub const TIME_LIMIT: u64 = 0x1_0000_0000_0000;

/// The creation time that `id` carries, in milliseconds since the epoch.
pub open spec fn millis_of(id: u128) -> u64 {
    (id >> 80) as u64
}

/// The letter for a five-bit value in Crockford's alphabet.
pub open spec fn crockford(d: int) -> char
    recommends
        0 <= d < 32,
{
    "0123456789ABCDEFGHJKMNPQRSTVWXYZ"@[d]
}

/// The five bits of `id` that its `i`-th letter stands for, the first letter
/// holding the highest bits.
pub open spec fn id_digit(id: u128, i: int) -> int
    recommends
        0 <= i < 26,
{
    ((id >> ((125 - 5 * i) as u128)) & 0x1f) as int
}

/// The text form of an identifier: 26 letters of Crockford's base 32.
pub open spec fn id_text(id: u128) -> Seq<char> {
    Seq::new(26, |i: int| crockford(id_digit(id, i)))
}

/// The second of its UTC day on which the millisecond `ms` falls.
pub open spec fn second_of_day(ms: u64) -> int {
    (ms as int / 1000) % 86400
}

/// The UTC day on which the millisecond `ms` falls, counted from the epoch.
pub open spec fn day_of(ms: u64) -> int {
    ms as int / 86_400_000
}

/// A second of the day as six digits: hours, minutes, seconds.
pub open spec fn hms_text(second: int) -> Seq<char>
    recommends
        0 <= second < 86400,
{
    two_digits(second / 3600) + two_digits((second % 3600) / 60) + two_digits(second % 60)
}

/// The UTC calendar date of a millisecond, as `chrono` writes it with the
/// pattern `%Y-%m-%d`.
pub uninterp spec fn utc_date_text(ms: u64) -> Seq<char>;

/// The UTC date and time of a millisecond in RFC 3339 form, as `chrono`
/// writes it.
pub uninterp spec fn rfc3339_text(ms: u64) -> Seq<char>;

/// `ulid::Ulid::timestamp_ms`: the upper 48 bits of the identifier.
#[verifier::external_body]
pub(crate) fn ulid_timestamp_ms(id: u128) -> (ms: u64)
    ensures
        ms == millis_of(id),
{
    ulid::Ulid(id).timestamp_ms()
}

/// `ulid::Ulid::to_string`: the identifier in Crockford's base 32, five bits
/// to a letter from the highest down, 26 letters in all.
#[verifier::external_body]
pub(crate) fn ulid_to_string(id: u128) -> (text: String)
    ensures
        text@ == id_text(id),
{
    ulid::Ulid(id).to_string()
}

/// `chrono::DateTime::<Utc>::format` with the pattern `%Y-%m-%d`, on the
/// instant `ms` milliseconds after the epoch. The result is only named. The
/// bound keeps the instant inside the range that `chrono` can represent.
#[verifier::external_body]
pub(crate) fn format_utc_date(ms: u64) -> (text: String)
    requires
        ms < TIME_LIMIT,
    ensures
        text@ == utc_date_text(ms),
{
    let at = std::time::SystemTime::UNIX_EPOCH + std::time::Duration::from_millis(ms);
    chrono::DateTime::<chrono::Utc>::from(at).format("%Y-%m-%d").to_string()
}

/// `chrono::DateTime::<Utc>::format` with the pattern `%H%M%S`, on the
/// instant `ms` milliseconds after the epoch: hour, minute and second of the
/// UTC day, each zero-padded to two digits.
#[verifier::external_body]
pub(crate) fn format_utc_time(ms: u64) -> (text: String)
    requires
        ms < TIME_LIMIT,
    ensures
        text@ == hms_text(second_of_day(ms)),
{
    let at = std::time::SystemTime::UNIX_EPOCH + std::time::Duration::from_millis(ms);
    chrono::DateTime::<chrono::Utc>::from(at).format("%H%M%S").to_string()
}

/// `chrono::DateTime::<Utc>::to_rfc3339` on the instant `ms` milliseconds
/// after the epoch. The result is only named.
#[verifier::external_body]
pub(crate) fn format_rfc3339(ms: u64) -> (text: String)
    requires
        ms < TIME_LIMIT,
    ensures
        text@ == rfc3339_text(ms),
{
    let at = std::time::SystemTime::UNIX_EPOCH + std::time::Duration::from_millis(ms);
    chrono::DateTime::<chrono::Utc>::from(at).to_rfc3339()
}

/// Every identifier carries a time below the limit.
pub proof fn lemma_millis_in_range(id: u128)
    ensures
        millis_of(id) < TIME_LIMIT,
        millis_of(id) as int == (id >> 80) as int,
{
    assert((id >> 80) < 0x1_0000_0000_0000u128) by (bit_vector);
}

/// Crockford's letters are all different, and they sort as the values they
/// stand for.
pub proof fn lemma_crockford_order(c: int, d: int)
    requires
        0 <= c < 32,
        0 <= d < 32,
    ensures
        (crockford(c) == crockford(d)) == (c == d),
        ((crockford(c) as u32) < (crockford(d) as u32)) == (c < d),
{
    reveal_strlit("0123456789ABCDEFGHJKMNPQRSTVWXYZ");
    let letters = "0123456789ABCDEFGHJKMNPQRSTVWXYZ"@;
    assert(forall|i: int| 0 <= i < 31 ==> (#[trigger] letters[i] as u32) < (letters[i + 1] as u32));
    lemma_increasing(letters, c, d);
    lemma_increasing(letters, d, c);
}

/// In a sequence of characters where each is below the next, each is below
/// all that follow.
proof fn lemma_increasing(letters: Seq<char>, i: int, j: int)
    requires
        forall|k: int|
            0 <= k < letters.len() - 1 ==> (#[trigger] letters[k] as u32) < (letters[k + 1] as u32),
        0 <= i < letters.len(),
        0 <= j < letters.len(),
    ensures
        i < j ==> (letters[i] as u32) < (letters[j] as u32),
    decreases j - i,
{
    if i + 1 < j {
        lemma_increasing(letters, i, j - 1);
    }
}

/// An identifier is the sum of its letters' values: no two identifiers
/// have the same text.
pub proof fn lemma_id_text_injective(a: u128, b: u128)
    requires
        id_text(a) == id_text(b),
    ensures
        a == b,
{
    assert forall|i: int| 0 <= i < 26 implies id_digit(a, i) == id_digit(b, i) by {
        let x = a >> ((125 - 5 * i) as u128);
        let y = b >> ((125 - 5 * i) as u128);
        assert(x & 0x1f < 32) by (bit_vector);
        assert(y & 0x1f < 32) by (bit_vector);
        assert(id_text(a)[i] == crockford(id_digit(a, i)));
        assert(id_text(b)[i] == crockford(id_digit(b, i)));
        lemma_crockford_order(id_digit(a, i), id_digit(b, i));
    }
    assert(id_digit(a, 0) == id_digit(b, 0));
    assert(id_digit(a, 1) == id_digit(b, 1));
    assert(id_digit(a, 2) == id_digit(b, 2));
    assert(id_digit(a, 3) == id_digit(b, 3));
    assert(id_digit(a, 4) == id_digit(b, 4));
    assert(id_digit(a, 5) == id_digit(b, 5));
    assert(id_digit(a, 6) == id_digit(b, 6));
    assert(id_digit(a, 7) == id_digit(b, 7));
    assert(id_digit(a, 8) == id_digit(b, 8));
    assert(id_digit(a, 9) == id_digit(b, 9));
    assert(id_digit(a, 10) == id_digit(b, 10));
    assert(id_digit(a, 11) == id_digit(b, 11));
    assert(id_digit(a, 12) == id_digit(b, 12));
    assert(id_digit(a, 13) == id_digit(b, 13));
    assert(id_digit(a, 14) == id_digit(b, 14));
    assert(id_digit(a, 15) == id_digit(b, 15));
    assert(id_digit(a, 16) == id_digit(b, 16));
    assert(id_digit(a, 17) == id_digit(b, 17));
    assert(id_digit(a, 18) == id_digit(b, 18));
    assert(id_digit(a, 19) == id_digit(b, 19));
    assert(id_digit(a, 20) == id_digit(b, 20));
    assert(id_digit(a, 21) == id_digit(b, 21));
    assert(id_digit(a, 22) == id_digit(b, 22));
    assert(id_digit(a, 23) == id_digit(b, 23));
    assert(id_digit(a, 24) == id_digit(b, 24));
    assert(id_digit(a, 25) == id_digit(b, 25));
    assert(a == b) by (bit_vector)
        requires
            (a >> 125) & 0x1f == (b >> 125) & 0x1f,
            (a >> 120) & 0x1f == (b >> 120) & 0x1f,
            (a >> 115) & 0x1f == (b >> 115) & 0x1f,
            (a >> 110) & 0x1f == (b >> 110) & 0x1f,
            (a >> 105) & 0x1f == (b >> 105) & 0x1f,
            (a >> 100) & 0x1f == (b >> 100) & 0x1f,
            (a >> 95) & 0x1f == (b >> 95) & 0x1f,
            (a >> 90) & 0x1f == (b >> 90) & 0x1f,
            (a >> 85) & 0x1f == (b >> 85) & 0x1f,
            (a >> 80) & 0x1f == (b >> 80) & 0x1f,
            (a >> 75) & 0x1f == (b >> 75) & 0x1f,
            (a >> 70) & 0x1f == (b >> 70) & 0x1f,
            (a >> 65) & 0x1f == (b >> 65) & 0x1f,
            (a >> 60) & 0x1f == (b >> 60) & 0x1f,
            (a >> 55) & 0x1f == (b >> 55) & 0x1f,
            (a >> 50) & 0x1f == (b >> 50) & 0x1f,
            (a >> 45) & 0x1f == (b >> 45) & 0x1f,
            (a >> 40) & 0x1f == (b >> 40) & 0x1f,
            (a >> 35) & 0x1f == (b >> 35) & 0x1f,
            (a >> 30) & 0x1f == (b >> 30) & 0x1f,
            (a >> 25) & 0x1f == (b >> 25) & 0x1f,
            (a >> 20) & 0x1f == (b >> 20) & 0x1f,
            (a >> 15) & 0x1f == (b >> 15) & 0x1f,
            (a >> 10) & 0x1f == (b >> 10) & 0x1f,
            (a >> 5) & 0x1f == (b >> 5) & 0x1f,
            (a >> 0) & 0x1f == (b >> 0) & 0x1f,
    ;
}

/// The six digits of a second of the day sort as the seconds do, and two
/// seconds with the same digits are the same second.
pub proof fn lemma_hms_order(a: int, b: int)
    requires
        0 <= a < 86400,
        0 <= b < 86400,
    ensures
        crate::text::lex_lt(hms_text(a), hms_text(b)) == (a < b),
        (hms_text(a) == hms_text(b)) == (a == b),
        hms_text(a).len() == 6,
{
    let (ah, am, az) = (a / 3600, (a % 3600) / 60, a % 60);
    let (bh, bm, bz) = (b / 3600, (b % 3600) / 60, b % 60);
    let empty = Seq::<char>::empty();
    crate::text::lemma_two_digits_order(ah, bh);
    crate::text::lemma_two_digits_order(am, bm);
    crate::text::lemma_two_digits_order(az, bz);
    crate::text::lemma_lex_lt_by_prefix(two_digits(az), empty, two_digits(bz), empty);
    assert(two_digits(az) + empty =~= two_digits(az));
    assert(two_digits(bz) + empty =~= two_digits(bz));
    crate::text::lemma_lex_lt_by_prefix(two_digits(am), two_digits(az), two_digits(bm), two_digits(bz));
    crate::text::lemma_lex_lt_by_prefix(
        two_digits(ah),
        two_digits(am) + two_digits(az),
        two_digits(bh),
        two_digits(bm) + two_digits(bz),
    );
    assert(hms_text(a) =~= two_digits(ah) + (two_digits(am) + two_digits(az)));
    assert(hms_text(b) =~= two_digits(bh) + (two_digits(bm) + two_digits(bz)));
    assert(a == ah * 3600 + am * 60 + az);
    assert(b == bh * 3600 + bm * 60 + bz);
    if hms_text(a) == hms_text(b) {
        let x = hms_text(a);
        let y = hms_text(b);
        assert(two_digits(ah) =~= x.subrange(0, 2));
        assert(two_digits(bh) =~= y.subrange(0, 2));
        assert(two_digits(am) =~= x.subrange(2, 4));
        assert(two_digits(bm) =~= y.subrange(2, 4));
        assert(two_digits(az) =~= x.subrange(4, 6));
        assert(two_digits(bz) =~= y.subrange(4, 6));
    }
    if two_digits(am) + two_digits(az) == two_digits(bm) + two_digits(bz) {
        let x = two_digits(am) + two_digits(az);
        let y = two_digits(bm) + two_digits(bz);
        assert(two_digits(am) =~= x.subrange(0, 2));
        assert(two_digits(bm) =~= y.subrange(0, 2));
        assert(two_digits(az) =~= x.subrange(2, 4));
        assert(two_digits(bz) =~= y.subrange(2, 4));
    }
}

} // verus!
