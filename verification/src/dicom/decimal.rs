//! Unsigned decimal numbers, as the text of a tag holds them.

use vstd::prelude::*;
use vstd::string::StrSliceExecFns;

verus! {

/// The digit that a character stands for.
pub open spec fn digit_of(c: char) -> Option<int> {
    if '0' <= c && c <= '9' {
        Some(c as int - '0' as int)
    } else {
        None
    }
}

/// The number that a run of digits stands for; zero for the empty run, and
/// `None` where a character is no digit.
pub open spec fn digits_value(s: Seq<char>) -> Option<int>
    decreases s.len(),
{
    if s.len() == 0 {
        Some(0)
    } else {
        match (digits_value(s.drop_last()), digit_of(s.last())) {
            (Some(v), Some(d)) => Some(10 * v + d),
            _ => None,
        }
    }
}

/// The digits of an unsigned number: the text without a plus sign at its
/// head.
pub open spec fn unsigned_digits(s: Seq<char>) -> Seq<char> {
    if s.len() > 0 && s[0] == '+' {
        s.subrange(1, s.len() as int)
    } else {
        s
    }
}

/// The number that a text stands for: an optional plus sign and one or
/// more digits, with nothing before, between or after.
pub open spec fn unsigned_of(s: Seq<char>) -> Option<int> {
    if unsigned_digits(s).len() == 0 {
        None
    } else {
        digits_value(unsigned_digits(s))
    }
}

/// The number that a text stands for, where it fits in sixteen bits.
pub open spec fn decimal_u16(s: Seq<char>) -> Option<u16> {
    match unsigned_of(s) {
        Some(v) => if v <= 65535 {
            Some(v as u16)
        } else {
            None
        },
        None => None,
    }
}

/// A run of digits stands for at least as much as each of its heads, and a
/// run with a head that is no run of digits is none.
pub proof fn lemma_digits_grow(s: Seq<char>, k: int)
    requires
        0 <= k <= s.len(),
    ensures
        digits_value(s) is Some ==> digits_value(s.take(k)) is Some && 0 <= digits_value(
            s.take(k),
        ).unwrap() <= digits_value(s).unwrap(),
    decreases s.len(),
{
    if k == s.len() {
        assert(s.take(k) =~= s);
        if s.len() > 0 {
            lemma_digits_grow(s.drop_last(), k - 1);
            assert(s.drop_last().take(k - 1) =~= s.drop_last());
        }
    } else {
        lemma_digits_grow(s.drop_last(), k);
        assert(s.drop_last().take(k) =~= s.take(k));
    }
}

/// The digit that a character stands for.
pub fn digit(c: char) -> (r: Option<u8>)
    ensures
        match r {
            Some(d) => digit_of(c) == Some(d as int) && d <= 9,
            None => digit_of(c) is None,
        },
{
    if c >= '0' && c <= '9' {
        Some((c as u32 - '0' as u32) as u8)
    } else {
        None
    }
}

/// The number that a text stands for, where it fits in sixteen bits: an
/// optional plus sign and one or more digits.
pub fn parse_u16(text: &str) -> (r: Option<u16>)
    ensures
        r == decimal_u16(text@),
{
    let n = text.unicode_len();
    let start: usize = if n > 0 && text.get_char(0) == '+' {
        1
    } else {
        0
    };
    if start == n {
        return None;
    }
    let ghost body = unsigned_digits(text@);
    assert(body =~= text@.subrange(start as int, n as int));
    assert(body.take(0) =~= Seq::<char>::empty());
    let mut acc: u32 = 0;
    let mut i: usize = start;
    while i < n
        invariant
            n == text@.len(),
            start <= i <= n,
            body == text@.subrange(start as int, n as int),
            body == unsigned_digits(text@),
            body.len() > 0,
            digits_value(body.take(i - start)) == Some(acc as int),
            acc <= 65535,
        decreases n - i,
    {
        let c = text.get_char(i);
        let ghost head = body.take(i - start + 1);
        proof {
            assert(head.drop_last() =~= body.take(i - start));
            assert(head.last() == c);
            assert(digits_value(head) == match digit_of(c) {
                Some(d) => Some(10 * acc + d),
                None => None,
            });
            lemma_digits_grow(body, i - start + 1);
        }
        match digit(c) {
            Some(d) => {
                acc = acc * 10 + d as u32;
                if acc > 65535 {
                    return None;
                }
            },
            None => {
                return None;
            },
        }
        i += 1;
    }
    assert(body.take(n - start) =~= body);
    Some(acc as u16)
}

} // verus!
