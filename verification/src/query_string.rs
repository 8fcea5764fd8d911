//! Query strings: from `key=value` pairs to a [`Query`].

use vstd::prelude::*;
use crate::dataformat::Query;
use crate::http_handling::same_text;

verus! {

/// Whether `c` is a decimal digit.
pub open spec fn is_digit(c: char) -> bool {
    '0' <= c <= '9'
}

/// Whether `s` is made of decimal digits only.
pub open spec fn all_digits(s: Seq<char>) -> bool {
    forall|i: int| 0 <= i < s.len() ==> is_digit(#[trigger] s[i])
}

/// The number that the digits `s` spell; zero for no digits.
pub open spec fn digits_number(s: Seq<char>) -> nat
    decreases s.len(),
{
    if s.len() == 0 {
        0
    } else {
        (digits_number(s.drop_last()) * 10 + (s.last() as int - 48)) as nat
    }
}

/// Whether `s` starts with a sign.
pub open spec fn has_sign(s: Seq<char>) -> bool {
    s.len() > 0 && (s[0] == '-' || s[0] == '+')
}

/// `s` without its sign.
pub open spec fn unsigned_part(s: Seq<char>) -> Seq<char> {
    if has_sign(s) {
        s.subrange(1, s.len() as int)
    } else {
        s
    }
}

/// The integer that `s` spells: an optional sign and at least one digit.
pub open spec fn signed_value(s: Seq<char>) -> int {
    if s.len() > 0 && s[0] == '-' {
        -digits_number(unsigned_part(s))
    } else {
        digits_number(unsigned_part(s)) as int
    }
}

/// The 32-bit integer that `s` spells in decimal, `None` where `s` is no
/// decimal integer or the integer does not fit.
pub open spec fn decimal_i32(s: Seq<char>) -> Option<i32> {
    if unsigned_part(s).len() > 0 && all_digits(unsigned_part(s)) && i32::MIN <= signed_value(s)
        <= i32::MAX {
        Some(signed_value(s) as i32)
    } else {
        None
    }
}

/// More digits never spell a smaller number.
proof fn lemma_digits_number_grows(s: Seq<char>, k: int)
    requires
        all_digits(s),
        0 <= k <= s.len(),
    ensures
        digits_number(s.take(k)) <= digits_number(s),
    decreases s.len() - k,
{
    if k == s.len() {
        assert(s.take(k) =~= s);
    } else {
        lemma_digits_number_grows(s, k + 1);
        let longer = s.take(k + 1);
        assert(longer.drop_last() =~= s.take(k));
        assert(is_digit(s[k]));
        assert(longer.last() == s[k]);
    }
}

/// Reads a decimal 32-bit integer.
pub fn parse_i32(text: &str) -> (r: Option<i32>)
    ensures
        r == decimal_i32(text@),
{
    let n: usize = text.unicode_len();
    if n == 0 {
        return None;
    }
    let first = text.get_char(0);
    let negative = first == '-';
    let start: usize = if first == '-' || first == '+' {
        1
    } else {
        0
    };
    let ghost digits = unsigned_part(text@);
    if start == n {
        return None;
    }
    let mut value: i64 = 0;
    let mut i: usize = start;
    while i < n
        invariant
            start <= i <= n,
            n == text@.len(),
            digits == text@.subrange(start as int, n as int),
            digits == unsigned_part(text@),
            all_digits(digits.take(i - start)),
            value == digits_number(digits.take(i - start)),
            0 <= value <= 2147483648,
        decreases n - i,
    {
        let c = text.get_char(i);
        assert(digits[i - start] == c);
        if c < '0' || c > '9' {
            assert(!is_digit(digits[i - start]));
            return None;
        }
        let ghost longer = digits.take(i + 1 - start);
        assert(longer.drop_last() =~= digits.take(i - start));
        assert(longer.last() == c);
        let d: i64 = (c as u32 - 48) as i64;
        value = value * 10 + d;
        if value > 2147483648 {
            proof {
                if all_digits(digits) {
                    lemma_digits_number_grows(digits, i + 1 - start);
                }
            }
            return None;
        }
        i += 1;
    }
    assert(digits.take(n - start) =~= digits);
    if negative {
        Some((-value) as i32)
    } else if value == 2147483648 {
        None
    } else {
        Some(value as i32)
    }
}

/// One `key=value` pair of a query string, percent-decoded.
pub type Pair = (String, String);

/// A pair as two texts.
pub type PairView = (Seq<char>, Seq<char>);

/// The pairs of `pairs`, each as two texts.
pub open spec fn pairs_view(pairs: Seq<Pair>) -> Seq<PairView> {
    Seq::new(pairs.len(), |i: int| (pairs[i].0@, pairs[i].1@))
}

/// The pairs of `pairs`, where there are any.
pub open spec fn parsed_pairs_view(pairs: Option<Vec<Pair>>) -> Option<Seq<PairView>> {
    match pairs {
        Some(p) => Some(pairs_view(p@)),
        None => None,
    }
}

/// The pairs that `serde_urlencoded` finds in a query string, `None` where
/// it fails.
pub uninterp spec fn form_pairs(query: Seq<char>) -> Option<Seq<PairView>>;

/// `serde_urlencoded::from_str` on `query`, read as a sequence of pairs of
/// strings. Trusted: the outcome is a function of the query string.
#[verifier::external_body]
fn urlencoded_pairs(query: &str) -> (r: Option<Vec<Pair>>)
    ensures
        parsed_pairs_view(r) == form_pairs(query@),
{
    serde_urlencoded::from_str::<Vec<(String, String)>>(query).ok()
}

/// What the pairs say of the field `key`: `Ok(None)` where no pair names it,
/// `Ok(Some(v))` where exactly one does and its value is the integer `v`,
/// and `Err` where a pair names it with a value that is no 32-bit integer,
/// or where two pairs name it.
pub open spec fn field_of(pairs: Seq<PairView>, key: Seq<char>) -> Result<Option<i32>, ()>
    decreases pairs.len(),
{
    if pairs.len() == 0 {
        Ok(None)
    } else if pairs.last().0 != key {
        field_of(pairs.drop_last(), key)
    } else {
        match (field_of(pairs.drop_last(), key), decimal_i32(pairs.last().1)) {
            (Ok(None), Some(v)) => Ok(Some(v)),
            _ => Err(()),
        }
    }
}

/// The query that the pairs describe: each of the four fields at most once
/// and with an integer value; pairs with other keys count for nothing.
pub open spec fn query_of(pairs: Seq<PairView>) -> Option<Query> {
    match (
        field_of(pairs, "device_id"@),
        field_of(pairs, "time_start"@),
        field_of(pairs, "time_end"@),
        field_of(pairs, "time_now"@),
    ) {
        (Ok(device_id), Ok(time_start), Ok(time_end), Ok(time_now)) => Some(
            Query { device_id, time_start, time_end, time_now },
        ),
        _ => None,
    }
}

/// Takes one more pair into what is known of the field `key`.
fn field_step(known: Result<Option<i32>, ()>, pair: &Pair, key: &str, Ghost(before): Ghost<
    Seq<PairView>,
>) -> (r: Result<Option<i32>, ()>)
    requires
        known == field_of(before, key@),
    ensures
        r == field_of(before.push((pair.0@, pair.1@)), key@),
{
    let ghost after = before.push((pair.0@, pair.1@));
    assert(after.drop_last() =~= before);
    if !same_text(pair.0.as_str(), key) {
        known
    } else {
        match (known, parse_i32(pair.1.as_str())) {
            (Ok(None), Some(v)) => Ok(Some(v)),
            _ => Err(()),
        }
    }
}

/// Builds the query that decoded pairs describe.
pub fn query_from_pairs(pairs: &Vec<Pair>) -> (r: Option<Query>)
    ensures
        r == query_of(pairs_view(pairs@)),
{
    let ghost all = pairs_view(pairs@);
    let mut device_id: Result<Option<i32>, ()> = Ok(None);
    let mut time_start: Result<Option<i32>, ()> = Ok(None);
    let mut time_end: Result<Option<i32>, ()> = Ok(None);
    let mut time_now: Result<Option<i32>, ()> = Ok(None);
    let mut i: usize = 0;
    while i < pairs.len()
        invariant
            i <= pairs.len(),
            all == pairs_view(pairs@),
            device_id == field_of(all.take(i as int), "device_id"@),
            time_start == field_of(all.take(i as int), "time_start"@),
            time_end == field_of(all.take(i as int), "time_end"@),
            time_now == field_of(all.take(i as int), "time_now"@),
        decreases pairs.len() - i,
    {
        let pair = &pairs[i];
        let ghost before = all.take(i as int);
        assert(before.push((pair.0@, pair.1@)) =~= all.take(i + 1));
        device_id = field_step(device_id, pair, "device_id", Ghost(before));
        time_start = field_step(time_start, pair, "time_start", Ghost(before));
        time_end = field_step(time_end, pair, "time_end", Ghost(before));
        time_now = field_step(time_now, pair, "time_now", Ghost(before));
        i += 1;
    }
    assert(all.take(pairs.len() as int) =~= all);
    match (device_id, time_start, time_end, time_now) {
        (Ok(device_id), Ok(time_start), Ok(time_end), Ok(time_now)) => Some(
            Query { device_id, time_start, time_end, time_now },
        ),
        _ => None,
    }
}

/// The query of a query string, `None` where the string describes none.
pub open spec fn parsed_query(query: Seq<char>) -> Option<Query> {
    match form_pairs(query) {
        Some(pairs) => query_of(pairs),
        None => None,
    }
}

/// Reads a query string.
pub fn parse_query(query: &str) -> (r: Option<Query>)
    ensures
        r == parsed_query(query@),
{
    match urlencoded_pairs(query) {
        Some(pairs) => query_from_pairs(&pairs),
        None => None,
    }
}

} // verus!
