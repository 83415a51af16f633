//! Verified parsing of decimal configuration values.
//!
//! The monitor's configuration arrives as environment-variable text; these
//! functions turn such text into integers. The grammar is the one Rust's
//! standard integer parsing accepts: an optional leading sign (`+` for the
//! unsigned types, `+` or `-` for the signed one) followed by at least one
//! decimal digit, with the value within the target type's range.

use vstd::prelude::*;

verus! {

/// True of a decimal digit character.
pub open spec fn is_dec_digit(c: char) -> bool {
    48 <= c as int && c as int <= 57
}

/// The numeric value of a decimal digit character.
pub open spec fn digit_value(c: char) -> nat
    recommends
        is_dec_digit(c),
{
    (c as int - 48) as nat
}

/// True when every character of `s` is a decimal digit.
pub open spec fn all_dec_digits(s: Seq<char>) -> bool {
    forall|i: int| 0 <= i < s.len() ==> is_dec_digit(#[trigger] s[i])
}

/// The value of a sequence of decimal digit characters, most significant
/// first.
pub open spec fn dec_value(s: Seq<char>) -> nat
    decreases s.len(),
{
    if s.len() == 0 {
        0
    } else {
        dec_value(s.drop_last()) * 10 + digit_value(s.last())
    }
}

/// The digit part of an unsigned numeral: everything after an optional
/// leading `+`.
pub open spec fn unsigned_digits(s: Seq<char>) -> Seq<char> {
    if s.len() > 0 && s[0] == '+' {
        s.skip(1)
    } else {
        s
    }
}

/// True when `s` is a well-formed numeral whose value fits in `u64`.
pub open spec fn is_u64_str(s: Seq<char>) -> bool {
    let d = unsigned_digits(s);
    d.len() > 0 && all_dec_digits(d) && dec_value(d) <= u64::MAX
}

/// True when `s` is a well-formed numeral whose value fits in `u16`.
pub open spec fn is_u16_str(s: Seq<char>) -> bool {
    let d = unsigned_digits(s);
    d.len() > 0 && all_dec_digits(d) && dec_value(d) <= u16::MAX
}

/// The value of an unsigned numeral.
pub open spec fn unsigned_str_value(s: Seq<char>) -> nat {
    dec_value(unsigned_digits(s))
}

/// True when a signed numeral is negative.
pub open spec fn signed_negative(s: Seq<char>) -> bool {
    s.len() > 0 && s[0] == '-'
}

/// The digit part of a signed numeral: everything after an optional leading
/// `-` or `+`.
pub open spec fn signed_digits(s: Seq<char>) -> Seq<char> {
    if s.len() > 0 && (s[0] == '-' || s[0] == '+') {
        s.skip(1)
    } else {
        s
    }
}

/// True when `s` is a well-formed signed numeral whose value fits in `i64`.
pub open spec fn is_i64_str(s: Seq<char>) -> bool {
    let d = signed_digits(s);
    d.len() > 0 && all_dec_digits(d) && (if signed_negative(s) {
        dec_value(d) <= 9223372036854775808
    } else {
        dec_value(d) <= i64::MAX
    })
}

/// The value of a signed numeral.
pub open spec fn signed_str_value(s: Seq<char>) -> int {
    if signed_negative(s) {
        -(dec_value(signed_digits(s)) as int)
    } else {
        dec_value(signed_digits(s)) as int
    }
}

/// Extending a digit string never decreases its value.
proof fn lemma_dec_value_take_monotone(s: Seq<char>, i: int, j: int)
    requires
        0 <= i <= j <= s.len(),
    ensures
        dec_value(s.take(i)) <= dec_value(s.take(j)),
    decreases j - i,
{
    if i < j {
        lemma_dec_value_take_monotone(s, i, j - 1);
        assert(s.take(j).drop_last() =~= s.take(j - 1));
        assert(dec_value(s.take(j)) == dec_value(s.take(j - 1)) * 10 + digit_value(s.take(j).last()));
    }
}

/// Parse the characters of `s` from position `from` to the end as a digit
/// string. Returns the value when every such character is a digit, there is
/// at least one, and the value fits in `u64`; `None` otherwise.
fn parse_digits(s: &str, from: usize) -> (r: Option<u64>)
    requires
        from as int <= s@.len(),
    ensures
        r is Some <==> (s@.skip(from as int).len() > 0 && all_dec_digits(s@.skip(from as int))
            && dec_value(s@.skip(from as int)) <= u64::MAX),
        r matches Some(n) ==> n as nat == dec_value(s@.skip(from as int)),
{
    let ghost d = s@.skip(from as int);
    let len = s.unicode_len();
    if from == len {
        return None;
    }
    let mut acc: u64 = 0;
    let mut i: usize = from;
    while i < len
        invariant
            from <= i <= len,
            len as nat == s@.len(),
            from < len,
            d == s@.skip(from as int),
            all_dec_digits(d.take(i - from)),
            acc as nat == dec_value(d.take(i - from)),
        decreases len - i,
    {
        let c = s.get_char(i);
        let code = c as u32;
        proof {
            assert(d[i - from] == s@[i as int]);
        }
        if code < 48 || code > 57 {
            assert(!is_dec_digit(d[i - from]));
            return None;
        }
        let digit = (code - 48) as u64;
        proof {
            assert(d.take(i - from + 1).drop_last() =~= d.take(i - from));
            assert(d.take(i - from + 1).last() == d[i - from]);
            assert(digit as nat == digit_value(d[i - from]));
        }
        let shifted = match acc.checked_mul(10) {
            Some(v) => v,
            None => {
                proof {
                    assert(dec_value(d.take(i - from + 1)) > u64::MAX);
                    lemma_dec_value_take_monotone(d, i - from + 1, d.len() as int);
                    assert(d.take(d.len() as int) =~= d);
                }
                return None;
            },
        };
        acc = match shifted.checked_add(digit) {
            Some(v) => v,
            None => {
                proof {
                    assert(dec_value(d.take(i - from + 1)) > u64::MAX);
                    lemma_dec_value_take_monotone(d, i - from + 1, d.len() as int);
                    assert(d.take(d.len() as int) =~= d);
                }
                return None;
            },
        };
        i = i + 1;
    }
    proof {
        assert(d.take(d.len() as int) =~= d);
    }
    Some(acc)
}

/// Parse a `u64` from decimal text: an optional leading `+`, then at least
/// one digit, with the value at most `u64::MAX`.
pub fn parse_u64(s: &str) -> (r: Option<u64>)
    ensures
        r is Some <==> is_u64_str(s@),
        r matches Some(n) ==> n as nat == unsigned_str_value(s@),
{
    let len = s.unicode_len();
    let from: usize = if len > 0 && s.get_char(0) == '+' {
        1
    } else {
        0
    };
    proof {
        assert(s@.skip(from as int) =~= unsigned_digits(s@));
    }
    parse_digits(s, from)
}

/// Parse a `u16` from decimal text: an optional leading `+`, then at least
/// one digit, with the value at most `u16::MAX`.
pub fn parse_u16(s: &str) -> (r: Option<u16>)
    ensures
        r is Some <==> is_u16_str(s@),
        r matches Some(n) ==> n as nat == unsigned_str_value(s@),
{
    match parse_u64(s) {
        Some(n) => {
            if n <= 65535 {
                Some(n as u16)
            } else {
                None
            }
        },
        None => None,
    }
}

/// Parse an `i64` from decimal text: an optional leading `-` or `+`, then at
/// least one digit, with the value within `i64`'s range.
pub fn parse_i64(s: &str) -> (r: Option<i64>)
    ensures
        r is Some <==> is_i64_str(s@),
        r matches Some(n) ==> n as int == signed_str_value(s@),
{
    let len = s.unicode_len();
    let mut negative = false;
    let mut from: usize = 0;
    if len > 0 {
        let c = s.get_char(0);
        if c == '-' {
            negative = true;
            from = 1;
        } else if c == '+' {
            from = 1;
        }
    }
    proof {
        assert(s@.skip(from as int) =~= signed_digits(s@));
    }
    match parse_digits(s, from) {
        Some(magnitude) => {
            if negative {
                if magnitude < 9223372036854775808u64 {
                    Some(-(magnitude as i64))
                } else if magnitude == 9223372036854775808u64 {
                    Some(i64::MIN)
                } else {
                    None
                }
            } else {
                if magnitude <= 9223372036854775807u64 {
                    Some(magnitude as i64)
                } else {
                    None
                }
            }
        },
        None => None,
    }
}

} // verus!
