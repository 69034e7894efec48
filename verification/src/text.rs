//! Small facts about character sequences: the order in which names sort and
//! two-digit decimal fields.
use vstd::prelude::*;

verus! {

/// Strict lexicographic order on character sequences, characters compared by
/// code point. This is the order in which `str` values compare.
pub open spec fn lex_lt(a: Seq<char>, b: Seq<char>) -> bool
    decreases a.len(),
{
    if b.len() == 0 {
        false
    } else if a.len() == 0 {
        true
    } else if a[0] != b[0] {
        (a[0] as u32) < (b[0] as u32)
    } else {
        lex_lt(a.drop_first(), b.drop_first())
    }
}

/// The decimal digit `d` as a character.
pub open spec fn digit_char(d: int) -> char
    recommends
        0 <= d <= 9,
{
    ((48 + d) as u8) as char
}

/// `n` written with exactly two decimal digits.
pub open spec fn two_digits(n: int) -> Seq<char>
    recommends
        0 <= n <= 99,
{
    seq![digit_char(n / 10), digit_char(n % 10)]
}

/// What `String::from_utf8_lossy` makes of a sequence of bytes.
pub uninterp spec fn utf8_lossy(bytes: Seq<u8>) -> Seq<char>;

/// `String::from_utf8_lossy`: the text that the bytes encode, with the
/// replacement character in place of whatever is not UTF-8. Bytes that are
/// UTF-8 throughout are decoded as they stand; the rest is only named.
#[verifier::external_body]
pub(crate) fn from_utf8_lossy(bytes: &[u8]) -> (text: String)
    ensures
        text@ == utf8_lossy(bytes@),
        vstd::utf8::valid_utf8(bytes@) ==> text@ == vstd::utf8::decode_utf8(bytes@),
{
    String::from_utf8_lossy(bytes).into_owned()
}

/// Tells whether two texts are the same.
pub fn same_text(a: &str, b: &str) -> (same: bool)
    ensures
        same == (a@ == b@),
{
    let left = String::from_str(a);
    let right = String::from_str(b);
    left == right
}

/// A copy of a list of words.
pub fn clone_words(words: &Vec<String>) -> (copy: Vec<String>)
    ensures
        crate::views(copy@) == crate::views(words@),
{
    let mut copy: Vec<String> = Vec::new();
    let mut i: usize = 0;
    while i < words.len()
        invariant
            i <= words.len(),
            copy.len() == i,
            forall|j: int| 0 <= j < i ==> copy[j]@ == words[j]@,
        decreases words.len() - i,
    {
        copy.push(words[i].clone());
        i = i + 1;
    }
    assert(crate::views(copy@) =~= crate::views(words@));
    copy
}

/// Two sequences that start with prefixes of one length sort by those
/// prefixes first, and by what follows only where the prefixes are equal.
pub proof fn lemma_lex_lt_by_prefix(p: Seq<char>, a: Seq<char>, q: Seq<char>, b: Seq<char>)
    requires
        p.len() == q.len(),
    ensures
        lex_lt(p + a, q + b) == (lex_lt(p, q) || (p == q && lex_lt(a, b))),
    decreases p.len(),
{
    if p.len() == 0 {
        assert(p =~= q);
        assert(p + a =~= a);
        assert(q + b =~= b);
    } else {
        let p_rest = p.drop_first();
        let q_rest = q.drop_first();
        assert((p + a).drop_first() =~= p_rest + a);
        assert((q + b).drop_first() =~= q_rest + b);
        assert((p + a)[0] == p[0]);
        assert((q + b)[0] == q[0]);
        lemma_lex_lt_by_prefix(p_rest, a, q_rest, b);
        if p[0] == q[0] {
            assert(p == q <==> p_rest == q_rest) by {
                if p_rest == q_rest {
                    assert(p =~= seq![p[0]] + p_rest);
                    assert(q =~= seq![q[0]] + q_rest);
                }
            }
        }
    }
}

/// Two-digit fields sort as the numbers they show.
pub proof fn lemma_two_digits_order(m: int, n: int)
    requires
        0 <= m <= 99,
        0 <= n <= 99,
    ensures
        lex_lt(two_digits(m), two_digits(n)) == (m < n),
        (two_digits(m) == two_digits(n)) == (m == n),
{
    let a = two_digits(m);
    let b = two_digits(n);
    reveal_with_fuel(lex_lt, 3);
    assert(a.drop_first() =~= seq![digit_char(m % 10)]);
    assert(b.drop_first() =~= seq![digit_char(n % 10)]);
    assert(a.drop_first().drop_first() =~= Seq::<char>::empty());
    assert(b.drop_first().drop_first() =~= Seq::<char>::empty());
    assert(a[0] as u32 == 48 + m / 10);
    assert(b[0] as u32 == 48 + n / 10);
    assert(a[1] as u32 == 48 + m % 10);
    assert(b[1] as u32 == 48 + n % 10);
    if a == b {
        assert(a[0] == b[0] && a[1] == b[1]);
    }
}

} // verus!
