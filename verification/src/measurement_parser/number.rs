//! The grammar of the decimal literals that a measurement column may hold.
//!
//! ```text
//! Literal  ::= Sign? ( 'inf' | 'infinity' | 'nan' | Number )
//! Number   ::= ( Digit+ | Digit+ '.' Digit* | Digit* '.' Digit+ ) Exponent?
//! Exponent ::= 'e' Sign? Digit+
//! Sign     ::= [+-]
//! Digit    ::= [0-9]
//! ```
//!
//! Letters count without regard to ASCII case. This is the grammar that `f64`'s `FromStr`
//! accepts, so every literal that passes here converts to a float.

use vstd::prelude::*;
use vstd::slice::slice_subrange;

verus! {

/// `c` is one of the ten ASCII digits.
pub open spec fn is_digit(c: char) -> bool {
    0x30 <= c as u32 <= 0x39
}

/// `c` is a plus or a minus sign.
pub open spec fn is_sign(c: char) -> bool {
    c == '+' || c == '-'
}

/// The code of `c`, with the ASCII capitals mapped to their small letters.
pub open spec fn fold_case(c: char) -> int {
    let code = c as u32;
    if 0x41 <= code <= 0x5A {
        code + 0x20
    } else {
        code as int
    }
}

/// `s` and `word` are the same but for ASCII case.
pub open spec fn same_ignoring_case(s: Seq<char>, word: Seq<char>) -> bool {
    &&& s.len() == word.len()
    &&& forall|i: int| 0 <= i < s.len() ==> fold_case(s[i]) == fold_case(word[i])
}

/// The number of digits that `s` begins with.
pub open spec fn leading_digits(s: Seq<char>) -> nat
    decreases s.len(),
{
    if s.len() > 0 && is_digit(s[0]) {
        1 + leading_digits(s.drop_first())
    } else {
        0
    }
}

/// `s` is one of the words for an infinity or for not-a-number.
pub open spec fn is_special(s: Seq<char>) -> bool {
    ||| same_ignoring_case(s, "inf"@)
    ||| same_ignoring_case(s, "infinity"@)
    ||| same_ignoring_case(s, "nan"@)
}

/// `s` is an exponent: the letter `e`, an optional sign, and at least one digit, with
/// nothing behind the digits.
pub open spec fn is_exponent(s: Seq<char>) -> bool {
    &&& s.len() > 0
    &&& (s[0] == 'e' || s[0] == 'E')
    &&& {
        let digits = if s.len() > 1 && is_sign(s[1]) {
            s.skip(2)
        } else {
            s.skip(1)
        };
        digits.len() > 0 && leading_digits(digits) == digits.len()
    }
}

/// `s` is a number: digits, optionally a point and more digits, at least one digit in
/// all, and optionally an exponent behind them.
pub open spec fn is_number(s: Seq<char>) -> bool {
    let whole = leading_digits(s);
    let after_whole = s.skip(whole as int);
    let has_point = after_whole.len() > 0 && after_whole[0] == '.';
    let fraction: nat = if has_point {
        leading_digits(after_whole.skip(1))
    } else {
        0
    };
    let rest = if has_point {
        after_whole.skip(1 + fraction as int)
    } else {
        after_whole
    };
    &&& whole + fraction > 0
    &&& (rest.len() == 0 || is_exponent(rest))
}

/// `s` is a literal of the grammar at the head of this file.
pub open spec fn is_float_literal(s: Seq<char>) -> bool {
    let body = if s.len() > 0 && is_sign(s[0]) {
        s.skip(1)
    } else {
        s
    };
    is_number(body) || is_special(body)
}

/// Tests whether `c` is a digit.
pub fn char_is_digit(c: char) -> (b: bool)
    ensures
        b == is_digit(c),
{
    let code: u32 = c as u32;
    0x30 <= code && code <= 0x39
}

/// Tests whether `c` is a sign.
pub fn char_is_sign(c: char) -> (b: bool)
    ensures
        b == is_sign(c),
{
    c == '+' || c == '-'
}

/// Computes the code of `c` with ASCII capitals made small.
pub fn folded(c: char) -> (code: u32)
    ensures
        code == fold_case(c),
{
    let code: u32 = c as u32;
    if 0x41 <= code && code <= 0x5A {
        code + 0x20
    } else {
        code
    }
}

/// Tests whether `s` is `word` but for ASCII case.
pub fn equals_ignoring_case(s: &[char], word: &str) -> (same: bool)
    ensures
        same == same_ignoring_case(s@, word@),
{
    let mut k: usize = 0;
    for c in it: word.chars()
        invariant
            it.seq() == word@,
            k <= s.len(),
            k == it.index(),
            forall|i: int| 0 <= i < k ==> fold_case(s@[i]) == fold_case(word@[i]),
    {
        if k >= s.len() || folded(s[k]) != folded(c) {
            return false;
        }
        k += 1;
    }
    k == s.len()
}

/// Finds where the run of digits that begins at `from` ends.
pub fn digit_run(s: &[char], from: usize) -> (end: usize)
    requires
        from <= s.len(),
    ensures
        from <= end <= s.len(),
        end - from == leading_digits(s@.skip(from as int)),
{
    let mut end: usize = from;
    while end < s.len() && char_is_digit(s[end])
        invariant
            from <= end <= s.len(),
            leading_digits(s@.skip(from as int)) == (end - from) + leading_digits(
                s@.skip(end as int),
            ),
        decreases s.len() - end,
    {
        assert(s@.skip(end as int).drop_first() =~= s@.skip(end + 1));
        end += 1;
    }
    end
}

/// Tests whether `s` is an exponent.
pub fn slice_is_exponent(s: &[char]) -> (b: bool)
    ensures
        b == is_exponent(s@),
{
    if s.len() == 0 || !(s[0] == 'e' || s[0] == 'E') {
        return false;
    }
    let first: usize = if s.len() > 1 && char_is_sign(s[1]) {
        2
    } else {
        1
    };
    first < s.len() && digit_run(s, first) == s.len()
}

/// Tests whether `s` is a number.
pub fn slice_is_number(s: &[char]) -> (b: bool)
    ensures
        b == is_number(s@),
{
    assert(s@.skip(0) =~= s@);
    let whole: usize = digit_run(s, 0);
    let has_point = whole < s.len() && s[whole] == '.';
    let rest_start: usize = if has_point {
        assert(s@.skip(whole as int).skip(1) =~= s@.skip(whole + 1));
        digit_run(s, whole + 1)
    } else {
        whole
    };
    let digits: usize = if has_point {
        whole + (rest_start - (whole + 1))
    } else {
        whole
    };
    let rest = slice_subrange(s, rest_start, s.len());
    proof {
        if has_point {
            let fraction = leading_digits(s@.skip(whole as int).skip(1));
            assert(s@.skip(whole as int).skip(1 + fraction as int) =~= rest@);
        } else {
            assert(s@.skip(whole as int) =~= rest@);
        }
    }
    digits > 0 && (rest.len() == 0 || slice_is_exponent(rest))
}

/// Tests whether `s` is a literal of the grammar.
pub fn slice_is_float_literal(s: &[char]) -> (b: bool)
    ensures
        b == is_float_literal(s@),
{
    let start: usize = if s.len() > 0 && char_is_sign(s[0]) {
        1
    } else {
        0
    };
    let body = slice_subrange(s, start, s.len());
    assert(body@ =~= s@.skip(start as int));
    assert(s@.skip(0) =~= s@);
    slice_is_number(body) || equals_ignoring_case(body, "inf") || equals_ignoring_case(
        body,
        "infinity",
    ) || equals_ignoring_case(body, "nan")
}

} // verus!
