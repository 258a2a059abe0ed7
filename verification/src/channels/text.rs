//! Character-level helpers for working with strings through their
//! character sequences.

use vstd::prelude::*;
use crate::channels::json::{digit_char, int_text, nat_digits, push_char};

verus! {

/// The characters of `s`, in order.
pub fn chars_of(s: &str) -> (r: Vec<char>)
    ensures
        r@ == s@,
{
    let mut out: Vec<char> = Vec::new();
    for c in it: s.chars()
        invariant
            out@ == it.seq().take(it.index() as int),
            it.seq() == s@,
    {
        out.push(c);
        assert(out@ =~= it.seq().take(it.index() + 1));
    }
    assert(out@ =~= s@);
    out
}

/// A string holding `chars[from..to]`.
pub fn string_of(chars: &Vec<char>, from: usize, to: usize) -> (r: String)
    requires
        from <= to <= chars.len(),
    ensures
        r@ == chars@.subrange(from as int, to as int),
{
    let mut s = String::new();
    let mut i = from;
    while i < to
        invariant
            from <= i <= to <= chars.len(),
            s@ == chars@.subrange(from as int, i as int),
        decreases to - i,
    {
        push_char(&mut s, chars[i]);
        i = i + 1;
        assert(s@ =~= chars@.subrange(from as int, i as int));
    }
    s
}

/// Whether two strings hold the same text.
pub fn same_text(a: &str, b: &str) -> (r: bool)
    ensures
        r == (a@ == b@),
{
    a.to_owned() == b.to_owned()
}

/// Whether `c` is an ASCII digit.
pub open spec fn is_digit(c: char) -> bool {
    '0' <= c && c <= '9'
}

/// The value of a sequence of ASCII digits.
pub open spec fn digits_value(s: Seq<char>) -> nat
    decreases s.len(),
{
    if s.len() == 0 {
        0
    } else {
        digits_value(s.drop_last()) * 10 + ((s.last() as u32) - ('0' as u32)) as nat
    }
}

/// What `str::parse::<u64>` gives for `s`: an optional `+` followed by one
/// or more ASCII digits whose value fits in 64 bits.
pub open spec fn parse_u64_text(s: Seq<char>) -> Option<u64> {
    let d = unsigned_digits(s);
    if d.len() > 0 && all_digits(d) && digits_value(d) <= u64::MAX {
        Some(digits_value(d) as u64)
    } else {
        None
    }
}

/// `s` without one leading `+`.
pub open spec fn unsigned_digits(s: Seq<char>) -> Seq<char> {
    if s.len() > 0 && s[0] == '+' {
        s.drop_first()
    } else {
        s
    }
}

/// Every character of `s` is an ASCII digit.
pub open spec fn all_digits(s: Seq<char>) -> bool {
    forall|i: int| 0 <= i < s.len() ==> is_digit(#[trigger] s[i])
}

proof fn lemma_digits_value_grows(s: Seq<char>, i: int)
    requires
        0 <= i <= s.len(),
        forall|k: int| 0 <= k < s.len() ==> is_digit(#[trigger] s[k]),
    ensures
        digits_value(s.take(i)) <= digits_value(s),
    decreases s.len() - i,
{
    if i < s.len() {
        lemma_digits_value_grows(s, i + 1);
        assert(s.take(i + 1).drop_last() =~= s.take(i));
        assert(is_digit(s[i]));
    } else {
        assert(s.take(i) =~= s);
    }
}

/// Reads an unsigned decimal number the way `str::parse::<u64>` does.
pub fn parse_u64(s: &str) -> (r: Option<u64>)
    ensures
        r == parse_u64_text(s@),
{
    let chars = chars_of(s);
    let ghost d = unsigned_digits(s@);
    let start: usize = if chars.len() > 0 && chars[0] == '+' {
        1
    } else {
        0
    };
    assert(d =~= chars@.skip(start as int));
    if start == chars.len() {
        return None;
    }
    let mut value: u64 = 0;
    let mut i = start;
    while i < chars.len()
        invariant
            start <= i <= chars.len(),
            chars@ == s@,
            d == unsigned_digits(s@),
            d == chars@.skip(start as int),
            forall|k: int| 0 <= k < i - start ==> is_digit(#[trigger] d[k]),
            value as nat == digits_value(d.take(i - start)),
        decreases chars.len() - i,
    {
        let c = chars[i];
        assert(d[i - start] == c);
        if !('0' <= c && c <= '9') {
            assert(!is_digit(d[i - start]));
            return None;
        }
        let digit = (c as u32 - '0' as u32) as u64;
        assert(d.take(i + 1 - start).drop_last() =~= d.take(i - start));
        assert(d.take(i + 1 - start).last() == c);
        assert(digits_value(d.take(i + 1 - start)) == digits_value(d.take(i - start)) * 10 + digit);
        match value.checked_mul(10) {
            Some(m) => match m.checked_add(digit) {
                Some(v) => {
                    value = v;
                },
                None => {
                    proof {
                        assert(m == value * 10);
                        assert(digits_value(d.take(i + 1 - start)) > u64::MAX);
                        if all_digits(d) {
                            lemma_digits_value_grows(d, i + 1 - start);
                        }
                    }
                    return None;
                },
            },
            None => {
                proof {
                    assert(digits_value(d.take(i + 1 - start)) > u64::MAX) by (nonlinear_arith)
                        requires
                            digits_value(d.take(i + 1 - start)) == digits_value(d.take(i - start))
                                * 10 + digit,
                            digits_value(d.take(i - start)) * 10 > u64::MAX,
                    ;
                    if all_digits(d) {
                        lemma_digits_value_grows(d, i + 1 - start);
                    }
                }
                return None;
            },
        }
        i = i + 1;
    }
    assert(d.take(i - start) =~= d);
    Some(value)
}

/// The decimal digits of a number are digits and read back as the number.
pub proof fn lemma_nat_digits_read_back(n: nat)
    ensures
        nat_digits(n).len() > 0,
        all_digits(nat_digits(n)),
        digits_value(nat_digits(n)) == n,
    decreases n,
{
    let d = n % 10;
    assert(digit_char(d) as u32 - '0' as u32 == d && is_digit(digit_char(d))) by {
        if d == 0 {
        } else if d == 1 {
        } else if d == 2 {
        } else if d == 3 {
        } else if d == 4 {
        } else if d == 5 {
        } else if d == 6 {
        } else if d == 7 {
        } else if d == 8 {
        } else {
            assert(d == 9);
        }
    }
    if n >= 10 {
        lemma_nat_digits_read_back(n / 10);
        let s = nat_digits(n);
        assert(s.drop_last() == nat_digits(n / 10));
        assert((n / 10) * 10 + n % 10 == n) by (nonlinear_arith);
        assert(s.last() == digit_char(d));
        assert(digits_value(s) == digits_value(s.drop_last()) * 10 + d);
        assert forall|i: int| 0 <= i < s.len() implies is_digit(#[trigger] s[i]) by {
            if i < s.len() - 1 {
                assert(s[i] == nat_digits(n / 10)[i]);
            }
        }
    } else {
        assert(nat_digits(n).drop_last() =~= Seq::<char>::empty());
        assert(n % 10 == n);
        assert(nat_digits(n).last() == digit_char(d));
        assert(digits_value(nat_digits(n)) == digits_value(nat_digits(n).drop_last()) * 10 + d);
    }
}

/// Writing a 64-bit number in decimal and reading the text back as `u64`
/// gives the number.
pub proof fn lemma_decimal_round_trip(n: u64)
    ensures
        parse_u64_text(nat_digits(n as nat)) == Some(n),
        parse_u64_text(int_text(n as int)) == Some(n),
{
    lemma_nat_digits_read_back(n as nat);
    assert(nat_digits(n as nat)[0] != '+') by {
        assert(is_digit(nat_digits(n as nat)[0]));
    }
}

/// A text reads as a `u64` only when it is one or more ASCII digits after
/// at most one leading `+`, and then as the value of those digits; `-`,
/// spaces and any other character make it unreadable.
pub proof fn lemma_parse_u64_accepts(s: Seq<char>)
    ensures
        forall|c: char| is_digit(c) <==> ('0' <= c && c <= '9'),
        parse_u64_text(s) is Some ==> {
            let d = if s.len() > 0 && s[0] == '+' {
                s.drop_first()
            } else {
                s
            };
            &&& d.len() > 0
            &&& forall|i: int| 0 <= i < d.len() ==> '0' <= #[trigger] d[i] && d[i] <= '9'
            &&& parse_u64_text(s)->0 as nat == digits_value(d)
        },
        (exists|i: int| 0 <= i < s.len() && !('0' <= #[trigger] s[i] && s[i] <= '9') && !(i == 0 && s[i] == '+'))
            ==> parse_u64_text(s) is None,
{
    if exists|i: int| 0 <= i < s.len() && !('0' <= #[trigger] s[i] && s[i] <= '9') && !(i == 0 && s[i] == '+') {
        let i = choose|i: int| 0 <= i < s.len() && !('0' <= #[trigger] s[i] && s[i] <= '9') && !(i == 0 && s[i] == '+');
        let d = unsigned_digits(s);
        if s.len() > 0 && s[0] == '+' {
            assert(d[i - 1] == s[i]);
            assert(!is_digit(d[i - 1]));
        } else {
            assert(!is_digit(d[i]));
        }
    }
}

} // verus!
