//! Text helpers: decimal numbers, case-insensitive containment and the few
//! `String` operations that the rest of the library builds on.

use vstd::prelude::*;
use vstd::string::*;

verus! {

/// `String::push` of std appends one character.
pub assume_specification[ String::push ](s: &mut String, c: char)
    ensures
        final(s)@ == old(s)@.push(c),
;

/// `String::pop` of std removes the last character and returns it, or returns
/// `None` and leaves an empty string empty.
pub assume_specification[ String::pop ](s: &mut String) -> (r: Option<char>)
    ensures
        old(s)@.len() == 0 ==> r.is_none() && final(s)@ == old(s)@,
        old(s)@.len() > 0 ==> r == Some(old(s)@.last()) && final(s)@ == old(s)@.drop_last(),
;

/// What `str::to_lowercase` of std returns for a string: its Unicode lowercase
/// form, a function of the characters alone.
pub uninterp spec fn lowercase(s: Seq<char>) -> Seq<char>;

/// `str::to_lowercase` of std; the contract only names its result.
pub assume_specification[ str::to_lowercase ](s: &str) -> (r: String)
    ensures
        r@ == lowercase(s@),
;

/// `needle` occurs in `hay` as a contiguous run of characters.
pub open spec fn occurs_in(needle: Seq<char>, hay: Seq<char>) -> bool {
    exists|i: int|
        0 <= i && i + needle.len() <= hay.len() && #[trigger] hay.subrange(
            i,
            i + needle.len(),
        ) == needle
}

/// `str::contains` of std with a string pattern: whether the pattern occurs
/// in the string as a substring.
#[verifier::external_body]
pub(crate) fn contains(hay: &str, needle: &str) -> (r: bool)
    ensures
        r == occurs_in(needle@, hay@),
{
    hay.contains(needle)
}

/// Case-insensitive containment: the lowercase form of `query` occurs in the
/// lowercase form of `name`. An empty query matches every name.
pub open spec fn matches_query(name: Seq<char>, query: Seq<char>) -> bool {
    query.len() == 0 || occurs_in(lowercase(query), lowercase(name))
}

/// Decides [`matches_query`].
pub fn name_matches(name: &str, query: &str) -> (r: bool)
    ensures
        r == matches_query(name@, query@),
{
    if query.unicode_len() == 0 {
        return true;
    }
    let lowered_name = name.to_lowercase();
    let lowered_query = query.to_lowercase();
    contains(lowered_name.as_str(), lowered_query.as_str())
}

/// The character of a decimal digit.
pub open spec fn digit_char(d: nat) -> char
    recommends
        d < 10,
{
    if d == 0 {
        '0'
    } else if d == 1 {
        '1'
    } else if d == 2 {
        '2'
    } else if d == 3 {
        '3'
    } else if d == 4 {
        '4'
    } else if d == 5 {
        '5'
    } else if d == 6 {
        '6'
    } else if d == 7 {
        '7'
    } else if d == 8 {
        '8'
    } else {
        '9'
    }
}

/// `c` is one of `'0'` to `'9'`.
pub open spec fn is_digit(c: char) -> bool {
    exists|d: nat| d < 10 && c == #[trigger] digit_char(d)
}

/// The value of a digit character; 0 for any other character.
pub open spec fn digit_value(c: char) -> nat {
    if c == '1' {
        1
    } else if c == '2' {
        2
    } else if c == '3' {
        3
    } else if c == '4' {
        4
    } else if c == '5' {
        5
    } else if c == '6' {
        6
    } else if c == '7' {
        7
    } else if c == '8' {
        8
    } else if c == '9' {
        9
    } else {
        0
    }
}

/// Every character of `s` is a decimal digit.
pub open spec fn all_digits(s: Seq<char>) -> bool {
    forall|i: int| 0 <= i < s.len() ==> is_digit(#[trigger] s[i])
}

/// The decimal notation of `n`, without sign or leading zeros.
pub open spec fn decimal(n: nat) -> Seq<char>
    decreases n,
{
    if n < 10 {
        seq![digit_char(n)]
    } else {
        decimal(n / 10).push(digit_char(n % 10))
    }
}

/// The number that a sequence of decimal digits denotes; 0 for no digits.
pub open spec fn number(s: Seq<char>) -> nat
    decreases s.len(),
{
    if s.len() == 0 {
        0
    } else {
        number(s.drop_last()) * 10 + digit_value(s.last())
    }
}

/// Whether `c` is a decimal digit.
pub fn is_decimal_digit(c: char) -> (r: bool)
    ensures
        r == is_digit(c),
{
    let r = c == '0' || c == '1' || c == '2' || c == '3' || c == '4' || c == '5' || c == '6' || c
        == '7' || c == '8' || c == '9';
    proof {
        if r {
            let d = digit_value(c);
            assert(c == digit_char(d));
        }
    }
    r
}

fn digit_of(d: u8) -> (c: char)
    requires
        d < 10,
    ensures
        c == digit_char(d as nat),
{
    if d == 0 {
        '0'
    } else if d == 1 {
        '1'
    } else if d == 2 {
        '2'
    } else if d == 3 {
        '3'
    } else if d == 4 {
        '4'
    } else if d == 5 {
        '5'
    } else if d == 6 {
        '6'
    } else if d == 7 {
        '7'
    } else if d == 8 {
        '8'
    } else {
        '9'
    }
}

fn value_of(c: char) -> (d: u64)
    ensures
        d == digit_value(c),
        d < 10,
{
    if c == '1' {
        1
    } else if c == '2' {
        2
    } else if c == '3' {
        3
    } else if c == '4' {
        4
    } else if c == '5' {
        5
    } else if c == '6' {
        6
    } else if c == '7' {
        7
    } else if c == '8' {
        8
    } else if c == '9' {
        9
    } else {
        0
    }
}

/// Appends the decimal notation of `n` to `out`.
pub fn push_decimal(out: &mut String, n: u128)
    ensures
        final(out)@ == old(out)@ + decimal(n as nat),
    decreases n,
{
    if n >= 10 {
        push_decimal(out, n / 10);
    }
    let d: u8 = (n % 10) as u8;
    out.push(digit_of(d));
    proof {
        if n >= 10 {
            assert(final(out)@ == (old(out)@ + decimal((n / 10) as nat)).push(
                digit_char((n % 10) as nat),
            ));
        }
        assert(final(out)@ =~= old(out)@ + decimal(n as nat));
    }
}

/// A longer run of digits denotes at least what its beginning denotes.
pub proof fn lemma_number_grows(s: Seq<char>, i: int)
    requires
        0 <= i <= s.len(),
    ensures
        number(s.take(i)) <= number(s),
    decreases s.len(),
{
    if i == s.len() {
        assert(s.take(i) =~= s);
    } else {
        lemma_number_grows(s.drop_last(), i);
        assert(s.drop_last().take(i) =~= s.take(i));
    }
}

/// What a buffer of typed characters counts for as a number of at most
/// `max`: the number that its digits denote, or 0 where the buffer is empty,
/// holds anything but digits, or denotes more than `max`.
pub open spec fn number_within(s: Seq<char>, max: nat) -> nat {
    if all_digits(s) && number(s) <= max {
        number(s)
    } else {
        0
    }
}

/// Computes [`number_within`].
pub fn number_or_zero(s: &str, max: u32) -> (r: u32)
    ensures
        r == number_within(s@, max as nat),
{
    let n = s.unicode_len();
    let mut value: u64 = 0;
    let mut i: usize = 0;
    while i < n
        invariant
            n == s@.len(),
            i <= n,
            all_digits(s@.take(i as int)),
            value == number(s@.take(i as int)),
            value <= max,
        decreases n - i,
    {
        let c = s.get_char(i);
        if !is_decimal_digit(c) {
            return 0;
        }
        let next: u64 = value * 10 + value_of(c);
        proof {
            assert(s@.take(i + 1).drop_last() =~= s@.take(i as int));
            assert(s@.take(i + 1).last() == s@[i as int]);
            assert(next == number(s@.take(i + 1)));
            assert forall|k: int| 0 <= k < i + 1 implies is_digit(
                #[trigger] s@.take(i + 1)[k],
            ) by {
                if k < i {
                    assert(s@.take(i + 1)[k] == s@.take(i as int)[k]);
                }
            }
        }
        if next > max as u64 {
            proof {
                lemma_number_grows(s@, i + 1);
            }
            return 0;
        }
        value = next;
        i = i + 1;
    }
    proof {
        assert(s@.take(n as int) =~= s@);
    }
    value as u32
}

/// The texts of a list of strings, in list order.
pub open spec fn texts(strings: Seq<String>) -> Seq<Seq<char>> {
    Seq::new(strings.len(), |i: int| strings[i]@)
}

/// The items in order with `separator` between each two.
pub open spec fn join(items: Seq<Seq<char>>, separator: Seq<char>) -> Seq<char>
    decreases items.len(),
{
    if items.len() == 0 {
        Seq::empty()
    } else if items.len() == 1 {
        items[0]
    } else {
        join(items.drop_last(), separator) + separator + items.last()
    }
}

/// Joins the strings with `separator` between each two.
pub fn join_strings(strings: &Vec<String>, separator: &str) -> (r: String)
    ensures
        r@ == join(texts(strings@), separator@),
{
    let mut out = String::new();
    let ghost items = texts(strings@);
    let mut i: usize = 0;
    while i < strings.len()
        invariant
            i <= strings.len(),
            items == texts(strings@),
            out@ == join(items.take(i as int), separator@),
        decreases strings.len() - i,
    {
        if i > 0 {
            out.append(separator);
        }
        out.append(strings[i].as_str());
        proof {
            let now = items.take(i + 1);
            assert(now.drop_last() =~= items.take(i as int));
            assert(now.last() == strings@[i as int]@);
            if i == 0 {
                assert(out@ =~= now[0]);
            }
        }
        i = i + 1;
    }
    proof {
        assert(items.take(strings@.len() as int) =~= items);
    }
    out
}

} // verus!
