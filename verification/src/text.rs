//! Character-level helpers shared by the line scanner and the row decoders.
//!
//! Text is handled as a slice of `char`, viewed as a `Seq<char>`; patterns are string
//! literals, viewed the same way.

use vstd::prelude::*;
use vstd::slice::slice_subrange;

verus! {

/// `String::push` appends one character and leaves what was there before untouched.
pub assume_specification[ std::string::String::push ](s: &mut std::string::String, ch: char)
    ensures
        final(s)@ == old(s)@.push(ch),
;

/// The views of a sequence of slices.
pub open spec fn slice_views(slices: Seq<&[char]>) -> Seq<Seq<char>> {
    slices.map_values(|s: &[char]| s@)
}

/// Copies the characters of `text` into a vector, so that later passes can index them
/// in constant time.
pub fn chars_of(text: &str) -> (chars: Vec<char>)
    ensures
        chars@ == text@,
{
    let mut chars: Vec<char> = Vec::new();
    for c in it: text.chars()
        invariant
            it.seq() == text@,
            chars@ == it.seq().take(it.index()),
    {
        chars.push(c);
    }
    chars
}

/// Collects a run of characters into an owned string.
pub fn string_of(chars: &[char]) -> (s: String)
    ensures
        s@ == chars@,
{
    let mut s = String::new();
    let mut i: usize = 0;
    while i < chars.len()
        invariant
            i <= chars.len(),
            s@ == chars@.take(i as int),
        decreases chars.len() - i,
    {
        s.push(chars[i]);
        i += 1;
    }
    s
}

// ---------------------------------------------------------------------------------------
// Patterns
// ---------------------------------------------------------------------------------------

/// `pat` stands in `s` at index `i`.
pub open spec fn occurs_at(s: Seq<char>, pat: Seq<char>, i: int) -> bool {
    &&& 0 <= i
    &&& i + pat.len() <= s.len()
    &&& s.subrange(i, i + pat.len()) == pat
}

/// `pat` stands somewhere in `s`.
pub open spec fn contains(s: Seq<char>, pat: Seq<char>) -> bool {
    exists|i: int| occurs_at(s, pat, i)
}

/// The index of the first occurrence of `pat` in `s` that starts at `from` or later.
pub open spec fn find_from(s: Seq<char>, pat: Seq<char>, from: int) -> Option<int>
    decreases s.len() - from,
    via find_from_decreases
{
    if from < 0 || from + pat.len() > s.len() {
        None
    } else if occurs_at(s, pat, from) {
        Some(from)
    } else {
        find_from(s, pat, from + 1)
    }
}

#[via_fn]
proof fn find_from_decreases(s: Seq<char>, pat: Seq<char>, from: int) {
    if 0 <= from && from + pat.len() <= s.len() && from >= s.len() {
        assert(s.subrange(from, from + pat.len()) =~= pat);
    }
}

/// What `find_from` returns is the least index, from `from` on, at which `pat` stands.
pub proof fn lemma_find_from(s: Seq<char>, pat: Seq<char>, from: int)
    requires
        0 <= from,
    ensures
        match find_from(s, pat, from) {
            Some(hit) => {
                &&& from <= hit
                &&& occurs_at(s, pat, hit)
                &&& forall|j: int| from <= j < hit ==> !occurs_at(s, pat, j)
            },
            None => forall|j: int| from <= j ==> !occurs_at(s, pat, j),
        },
    decreases s.len() - from,
{
    if from + pat.len() > s.len() {
    } else if occurs_at(s, pat, from) {
    } else {
        if from >= s.len() {
            assert(s.subrange(from, from + pat.len()) =~= pat);
        }
        lemma_find_from(s, pat, from + 1);
    }
}

/// `contains` and a search from the start agree.
pub proof fn lemma_contains_iff_found(s: Seq<char>, pat: Seq<char>)
    ensures
        contains(s, pat) <==> find_from(s, pat, 0) is Some,
{
    lemma_find_from(s, pat, 0);
}

/// Where `pat` stands in `s` at index `i`, returns the index just behind it.
pub fn match_end(s: &[char], i: usize, pat: &str) -> (end: Option<usize>)
    ensures
        match end {
            Some(k) => occurs_at(s@, pat@, i as int) && k == i + pat@.len(),
            None => !occurs_at(s@, pat@, i as int),
        },
{
    if i > s.len() {
        return None;
    }
    let mut k: usize = i;
    for c in it: pat.chars()
        invariant
            it.seq() == pat@,
            i <= k <= s.len(),
            k == i + it.index(),
            s@.subrange(i as int, k as int) == pat@.take(it.index()),
    {
        if k >= s.len() || s[k] != c {
            proof {
                let n = it.index();
                if occurs_at(s@, pat@, i as int) {
                    assert(s@.subrange(i as int, i + pat@.len())[n] == pat@[n]);
                }
            }
            return None;
        }
        k += 1;
    }
    assert(pat@.take(pat@.len() as int) =~= pat@);
    Some(k)
}

/// Tests whether `s` begins with `pat`.
pub fn starts_with(s: &[char], pat: &str) -> (hit: bool)
    ensures
        hit == pat@.is_prefix_of(s@),
{
    let end = match_end(s, 0, pat);
    proof {
        if pat@.len() <= s@.len() {
            assert(s@.subrange(0, pat@.len() as int) =~= s@.take(pat@.len() as int));
        }
    }
    end.is_some()
}

/// Tests whether `s` is exactly `pat`.
pub fn equals(s: &[char], pat: &str) -> (same: bool)
    ensures
        same == (s@ == pat@),
{
    match match_end(s, 0, pat) {
        Some(k) => {
            proof {
                if k == s.len() {
                    assert(s@.subrange(0, pat@.len() as int) =~= s@);
                }
            }
            k == s.len()
        },
        None => {
            proof {
                if s@ == pat@ {
                    assert(s@.subrange(0, pat@.len() as int) =~= s@);
                }
            }
            false
        },
    }
}

/// Searches `s` from index `from` on for the first occurrence of `pat`, and returns where
/// it starts and where it ends.
pub fn find(s: &[char], pat: &str, from: usize) -> (hit: Option<(usize, usize)>)
    ensures
        match hit {
            Some((start, end)) => {
                &&& find_from(s@, pat@, from as int) == Some(start as int)
                &&& end == start + pat@.len()
                &&& from <= start
                &&& end <= s.len()
            },
            None => find_from(s@, pat@, from as int) is None,
        },
{
    if from > s.len() {
        return None;
    }
    let mut i: usize = from;
    while i <= s.len()
        invariant
            from <= i <= s.len() + 1,
            find_from(s@, pat@, from as int) == find_from(s@, pat@, i as int),
        decreases s.len() + 1 - i,
    {
        match match_end(s, i, pat) {
            Some(end) => {
                return Some((i, end));
            },
            None => {
                if i == s.len() {
                    assert(find_from(s@, pat@, i as int) is None) by {
                        lemma_find_from(s@, pat@, i as int);
                        if find_from(s@, pat@, i as int) is Some {
                            assert(occurs_at(s@, pat@, find_from(s@, pat@, i as int)->0));
                        }
                    }
                    return None;
                }
                i += 1;
            },
        }
    }
    None
}

/// Tests whether `pat` stands somewhere in `s`.
pub fn slice_contains(s: &[char], pat: &str) -> (hit: bool)
    ensures
        hit == contains(s@, pat@),
{
    proof {
        lemma_contains_iff_found(s@, pat@);
    }
    find(s, pat, 0).is_some()
}

/// Tests whether two texts are the same.
pub fn same_text(a: &str, b: &str) -> (same: bool)
    ensures
        same == (a@ == b@),
{
    let chars = chars_of(a);
    equals(chars.as_slice(), b)
}

/// The views of a sequence of strings.
pub open spec fn string_views(strings: Seq<String>) -> Seq<Seq<char>> {
    strings.map_values(|s: String| s@)
}

// ---------------------------------------------------------------------------------------
// Numbers in decimal
// ---------------------------------------------------------------------------------------

/// The character of the digit `d`.
pub open spec fn digit_char(d: nat) -> char {
    ((0x30 + d) as u8) as char
}

/// The digits of `n` in decimal, without leading zeros.
pub open spec fn decimal_digits(n: nat) -> Seq<char>
    decreases n,
{
    if n < 10 {
        seq![digit_char(n)]
    } else {
        decimal_digits(n / 10).push(digit_char(n % 10))
    }
}

/// `n` in decimal, with a minus sign where it is negative.
pub open spec fn decimal(n: int) -> Seq<char> {
    if n < 0 {
        seq!['-'] + decimal_digits((-n) as nat)
    } else {
        decimal_digits(n as nat)
    }
}

/// Appends the decimal digits of `n` to `s`.
pub fn push_decimal_digits(s: &mut String, n: u64)
    ensures
        final(s)@ == old(s)@ + decimal_digits(n as nat),
    decreases n,
{
    if n >= 10 {
        push_decimal_digits(s, n / 10);
    }
    let digit: u8 = (n % 10) as u8;
    s.push((0x30 + digit) as char);
    proof {
        if n < 10 {
            assert(final(s)@ =~= old(s)@ + seq![digit_char(n as nat)]);
        } else {
            assert(final(s)@ =~= old(s)@ + decimal_digits((n / 10) as nat).push(
                digit_char((n % 10) as nat),
            ));
        }
    }
}

/// Writes `n` in decimal.
pub fn decimal_string(n: i64) -> (s: String)
    ensures
        s@ == decimal(n as int),
{
    let mut s = String::new();
    if n < 0 {
        s.push('-');
        let magnitude: u64 = (-(n + 1)) as u64 + 1;
        push_decimal_digits(&mut s, magnitude);
    } else {
        push_decimal_digits(&mut s, n as u64);
    }
    assert(s@ =~= decimal(n as int));
    s
}

// ---------------------------------------------------------------------------------------
// Splitting at a separator
// ---------------------------------------------------------------------------------------

/// The pieces of `s` from index `from` on that lie between the occurrences of `sep`, found
/// from left to right without overlap. There is always at least one piece, and a piece
/// may be empty. With an empty `sep` the rest of `s` is the only piece.
pub open spec fn split_from(s: Seq<char>, sep: Seq<char>, from: int) -> Seq<Seq<char>>
    decreases s.len() - from,
    via split_from_decreases
{
    if sep.len() == 0 || from < 0 {
        seq![s.subrange(from, s.len() as int)]
    } else {
        match find_from(s, sep, from) {
            Some(hit) => seq![s.subrange(from, hit)] + split_from(s, sep, hit + sep.len()),
            None => seq![s.subrange(from, s.len() as int)],
        }
    }
}

#[via_fn]
proof fn split_from_decreases(s: Seq<char>, sep: Seq<char>, from: int) {
    if sep.len() > 0 && from >= 0 {
        lemma_find_from(s, sep, from);
    }
}

/// The pieces of `s` between the occurrences of `sep`.
pub open spec fn split(s: Seq<char>, sep: Seq<char>) -> Seq<Seq<char>> {
    split_from(s, sep, 0)
}

/// Cuts `s` at every occurrence of `sep`.
pub fn split_slice<'a>(s: &'a [char], sep: &str) -> (pieces: Vec<&'a [char]>)
    ensures
        slice_views(pieces@) == split(s@, sep@),
        pieces.len() >= 1,
{
    let mut pieces: Vec<&'a [char]> = Vec::new();
    if sep.is_empty() {
        pieces.push(s);
        assert(s@.subrange(0, s@.len() as int) =~= s@);
        assert(slice_views(pieces@) =~= seq![s@]);
        return pieces;
    }
    let mut from: usize = 0;
    loop
        invariant_except_break
            from <= s.len(),
            split(s@, sep@) == slice_views(pieces@) + split_from(s@, sep@, from as int),
        invariant
            sep@.len() > 0,
        ensures
            slice_views(pieces@) == split(s@, sep@),
            pieces.len() >= 1,
        decreases s.len() - from,
    {
        let ghost before = slice_views(pieces@);
        match find(s, sep, from) {
            Some((start, end)) => {
                pieces.push(slice_subrange(s, from, start));
                assert(split_from(s@, sep@, from as int) == seq![
                    s@.subrange(from as int, start as int),
                ] + split_from(s@, sep@, end as int));
                assert(slice_views(pieces@) =~= before.push(s@.subrange(from as int, start as int)));
                assert(before.push(s@.subrange(from as int, start as int)) + split_from(
                    s@,
                    sep@,
                    end as int,
                ) =~= before + (seq![s@.subrange(from as int, start as int)] + split_from(
                    s@,
                    sep@,
                    end as int,
                )));
                from = end;
            },
            None => {
                pieces.push(slice_subrange(s, from, s.len()));
                assert(split_from(s@, sep@, from as int) == seq![
                    s@.subrange(from as int, s.len() as int),
                ]);
                assert(slice_views(pieces@) =~= before.push(s@.subrange(from as int, s.len() as int)));
                assert(before.push(s@.subrange(from as int, s.len() as int)) =~= before
                    + seq![s@.subrange(from as int, s.len() as int)]);
                break;
            },
        }
    }
    pieces
}

// ---------------------------------------------------------------------------------------
// White space
// ---------------------------------------------------------------------------------------

/// The characters with the Unicode property `White_Space`.
pub open spec fn is_whitespace(c: char) -> bool {
    let code = c as u32;
    ||| 0x09 <= code <= 0x0D
    ||| code == 0x20
    ||| code == 0x85
    ||| code == 0xA0
    ||| code == 0x1680
    ||| 0x2000 <= code <= 0x200A
    ||| code == 0x2028
    ||| code == 0x2029
    ||| code == 0x202F
    ||| code == 0x205F
    ||| code == 0x3000
}

/// Tests whether `c` is white space.
pub fn char_is_whitespace(c: char) -> (b: bool)
    ensures
        b == is_whitespace(c),
{
    let code: u32 = c as u32;
    (0x09 <= code && code <= 0x0D) || code == 0x20 || code == 0x85 || code == 0xA0 || code
        == 0x1680 || (0x2000 <= code && code <= 0x200A) || code == 0x2028 || code == 0x2029
        || code == 0x202F || code == 0x205F || code == 0x3000
}

/// `s` without the white space at its start.
pub open spec fn trim_start(s: Seq<char>) -> Seq<char>
    decreases s.len(),
{
    if s.len() > 0 && is_whitespace(s[0]) {
        trim_start(s.drop_first())
    } else {
        s
    }
}

/// `s` without the white space at its end.
pub open spec fn trim_end(s: Seq<char>) -> Seq<char>
    decreases s.len(),
{
    if s.len() > 0 && is_whitespace(s.last()) {
        trim_end(s.drop_last())
    } else {
        s
    }
}

/// `s` without the white space at either end.
pub open spec fn trim(s: Seq<char>) -> Seq<char> {
    trim_end(trim_start(s))
}

/// Narrows `s` to what stands between its leading and its trailing white space.
pub fn trim_slice<'a>(s: &'a [char]) -> (t: &'a [char])
    ensures
        t@ == trim(s@),
{
    let mut start: usize = 0;
    assert(s@.skip(0) =~= s@);
    while start < s.len() && char_is_whitespace(s[start])
        invariant
            start <= s.len(),
            trim_start(s@) == trim_start(s@.skip(start as int)),
        decreases s.len() - start,
    {
        assert(s@.skip(start as int).drop_first() =~= s@.skip(start + 1));
        start += 1;
    }
    assert(s@.skip(s.len() as int).len() == 0);
    assert(trim_start(s@) == s@.skip(start as int));
    let mut end: usize = s.len();
    assert(s@.subrange(start as int, end as int) =~= s@.skip(start as int));
    while end > start && char_is_whitespace(s[end - 1])
        invariant
            start <= end <= s.len(),
            trim(s@) == trim_end(s@.subrange(start as int, end as int)),
        decreases end - start,
    {
        assert(s@.subrange(start as int, end as int).drop_last() =~= s@.subrange(
            start as int,
            end - 1,
        ));
        end -= 1;
    }
    slice_subrange(s, start, end)
}

// ---------------------------------------------------------------------------------------
// Lines
// ---------------------------------------------------------------------------------------

/// The index of the first line feed in `text` at `from` or later, or the length of `text`
/// where there is none.
pub open spec fn line_end(text: Seq<char>, from: int) -> int
    decreases text.len() - from,
{
    if from >= text.len() {
        text.len() as int
    } else if text[from] == '\n' {
        from
    } else {
        line_end(text, from + 1)
    }
}

/// `line` without a carriage return at its end.
pub open spec fn strip_carriage_return(line: Seq<char>) -> Seq<char> {
    if line.len() > 0 && line.last() == '\r' {
        line.drop_last()
    } else {
        line
    }
}

/// The lines of `text` from index `from` on. A line ends at a line feed, which does not
/// belong to it, nor does a carriage return just before that line feed. What follows the
/// last line feed is a line only where it is not empty, and keeps a carriage return at
/// its end.
pub open spec fn lines_from(text: Seq<char>, from: int) -> Seq<Seq<char>>
    decreases text.len() - from,
    via lines_from_decreases
{
    if from < 0 || from >= text.len() {
        Seq::empty()
    } else {
        let end = line_end(text, from);
        if end < text.len() {
            seq![strip_carriage_return(text.subrange(from, end))] + lines_from(text, end + 1)
        } else {
            seq![text.subrange(from, end)]
        }
    }
}

#[via_fn]
proof fn lines_from_decreases(text: Seq<char>, from: int) {
    if 0 <= from <= text.len() {
        lemma_line_end(text, from);
    }
}

/// `line_end` stays within the text, and no line feed stands before it.
pub proof fn lemma_line_end(text: Seq<char>, from: int)
    requires
        0 <= from <= text.len(),
    ensures
        from <= line_end(text, from) <= text.len(),
        line_end(text, from) < text.len() ==> text[line_end(text, from)] == '\n',
        forall|j: int| from <= j < line_end(text, from) ==> text[j] != '\n',
    decreases text.len() - from,
{
    if from < text.len() && text[from] != '\n' {
        lemma_line_end(text, from + 1);
    }
}

/// The lines of `text`.
pub open spec fn lines(text: Seq<char>) -> Seq<Seq<char>> {
    lines_from(text, 0)
}

/// Cuts `text` into its lines.
pub fn split_lines<'a>(text: &'a [char]) -> (out: Vec<&'a [char]>)
    ensures
        slice_views(out@) == lines(text@),
{
    let mut out: Vec<&'a [char]> = Vec::new();
    let mut from: usize = 0;
    while from < text.len()
        invariant
            from <= text.len(),
            lines(text@) == slice_views(out@) + lines_from(text@, from as int),
        decreases text.len() - from,
    {
        let mut end: usize = from;
        while end < text.len() && text[end] != '\n'
            invariant
                from <= end <= text.len(),
                line_end(text@, from as int) == line_end(text@, end as int),
            decreases text.len() - end,
        {
            end += 1;
        }
        let ghost before = slice_views(out@);
        if end < text.len() {
            let stop: usize = if end > from && text[end - 1] == '\r' {
                end - 1
            } else {
                end
            };
            let line = slice_subrange(text, from, stop);
            assert(line@ =~= strip_carriage_return(text@.subrange(from as int, end as int)));
            out.push(line);
            assert(slice_views(out@) =~= before.push(line@));
            assert(before.push(line@) + lines_from(text@, end + 1) =~= before + (seq![line@]
                + lines_from(text@, end + 1)));
            from = end + 1;
        } else {
            let line = slice_subrange(text, from, end);
            out.push(line);
            assert(slice_views(out@) =~= before.push(line@));
            assert(before.push(line@) =~= before + seq![line@]);
            from = end;
        }
    }
    assert(lines_from(text@, from as int) =~= Seq::<Seq<char>>::empty());
    out
}

} // verus!
