use vstd::prelude::*;
use vstd::string::StrSliceExecFns;

use crate::error::StoreError;

verus! {

pub open spec fn is_digit(c: char) -> bool {
    '0' <= c && c <= '9'
}

pub open spec fn digit_value(c: char) -> nat {
    (c as int - '0' as int) as nat
}

/// The number that a string of decimal digits denotes.
pub open spec fn decimal_value(s: Seq<char>) -> nat
    decreases s.len(),
{
    if s.len() == 0 {
        0
    } else {
        decimal_value(s.drop_last()) * 10 + digit_value(s.last())
    }
}

/// The digits of an age text: the text without one leading `+`.
pub open spec fn age_digits(s: Seq<char>) -> Seq<char> {
    if s.len() > 0 && s[0] == '+' {
        s.drop_first()
    } else {
        s
    }
}

/// An age is written as an optional `+` and one or more decimal digits,
/// whose value is at most 255.
pub open spec fn is_age_text(s: Seq<char>) -> bool {
    let d = age_digits(s);
    &&& d.len() > 0
    &&& forall|i: int| 0 <= i < d.len() ==> is_digit(#[trigger] d[i])
    &&& decimal_value(d) <= 255
}

/// Reads an age given as text.
pub fn parse_age(text: &str) -> (r: Result<u8, StoreError>)
    ensures
        is_age_text(text@) ==> r == Ok::<u8, StoreError>(decimal_value(age_digits(text@)) as u8),
        !is_age_text(text@) ==> r == Err::<u8, StoreError>(StoreError::InvalidArgument),
{
    let ghost s = text@;
    let n = text.unicode_len();
    let mut start: usize = 0;
    if n > 0 && text.get_char(0) == '+' {
        start = 1;
    }
    let ghost d = age_digits(s);
    assert(d =~= s.subrange(start as int, n as int));
    if start == n {
        return Err(StoreError::InvalidArgument);
    }
    let mut acc: u32 = 0;
    let mut i: usize = start;
    while i < n
        invariant
            start <= i <= n,
            n == s.len(),
            s == text@,
            d == s.subrange(start as int, n as int),
            d == age_digits(s),
            forall|j: int| start <= j < i ==> is_digit(#[trigger] s[j]),
            acc == if decimal_value(s.subrange(start as int, i as int)) <= 255 {
                decimal_value(s.subrange(start as int, i as int))
            } else {
                256
            },
        decreases n - i,
    {
        let c = text.get_char(i);
        if !('0' <= c && c <= '9') {
            assert(d[i - start] == c);
            assert(!is_digit(d[i - start]));
            return Err(StoreError::InvalidArgument);
        }
        let ghost prefix = s.subrange(start as int, i + 1);
        assert(prefix.drop_last() =~= s.subrange(start as int, i as int));
        let digit: u32 = (c as u32) - ('0' as u32);
        if acc <= 255 {
            let v = acc * 10 + digit;
            acc = if v <= 255 {
                v
            } else {
                256
            };
        }
        i = i + 1;
    }
    assert(s.subrange(start as int, n as int) =~= d);
    if acc <= 255 {
        assert forall|j: int| 0 <= j < d.len() implies is_digit(#[trigger] d[j]) by {
            assert(d[j] == s[j + start]);
        }
        Ok(acc as u8)
    } else {
        Err(StoreError::InvalidArgument)
    }
}

} // verus!
