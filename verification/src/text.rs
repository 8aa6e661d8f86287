//! Character-level helpers shared by the scanners: conversion of a string
//! into its characters, delimiter search, literal matching and decimal
//! numbers.

use vstd::prelude::*;

verus! {

/// The first position at or after `from` at which `c` occurs in `s`, or the
/// length of `s` when it occurs nowhere from there on.
pub open spec fn find(s: Seq<char>, from: int, c: char) -> int
    decreases s.len() - from,
{
    if from < 0 || from >= s.len() {
        s.len() as int
    } else if s[from] == c {
        from
    } else {
        find(s, from + 1, c)
    }
}

/// Where reading goes on after a capture that started at `from` and is
/// delimited by `c`: just behind the delimiter, or at the end of `s` when the
/// delimiter is missing.
pub open spec fn after(s: Seq<char>, from: int, c: char) -> int {
    if find(s, from, c) < s.len() {
        find(s, from, c) + 1
    } else {
        s.len() as int
    }
}

/// `lit` stands in `s` at position `pos`.
pub open spec fn lit_at(s: Seq<char>, pos: int, lit: Seq<char>) -> bool {
    &&& 0 <= pos
    &&& pos + lit.len() <= s.len()
    &&& s.subrange(pos, pos + lit.len()) == lit
}

/// The characters of `s`, in order.
pub fn to_chars(s: &str) -> (r: Vec<char>)
    ensures
        r@ == s@,
{
    let mut r: Vec<char> = Vec::new();
    for c in it: s.chars()
        invariant
            it.seq() == s@,
            r@ == it.seq().subrange(0, it.index() as int),
    {
        r.push(c);
        assert(r@ =~= it.seq().subrange(0, it.index() + 1));
    }
    assert(r@ =~= s@);
    r
}

/// Position of the first `c` in `v` at or after `from`; the length of `v` if
/// there is none.
pub fn find_char(v: &Vec<char>, from: usize, c: char) -> (r: usize)
    requires
        from <= v.len(),
    ensures
        r == find(v@, from as int, c),
        from <= r <= v.len(),
        r < v.len() ==> v@[r as int] == c,
        forall|j: int| from <= j < r ==> v@[j] != c,
{
    let mut i: usize = from;
    while i < v.len()
        invariant
            from <= i <= v.len(),
            find(v@, from as int, c) == find(v@, i as int, c),
            forall|j: int| from <= j < i ==> v@[j] != c,
        decreases v.len() - i,
    {
        if v[i] == c {
            return i;
        }
        i = i + 1;
    }
    i
}

/// Whether `lit` stands in `v` at position `pos`.
pub fn has_at(v: &Vec<char>, pos: usize, lit: &Vec<char>) -> (b: bool)
    requires
        pos <= v.len(),
    ensures
        b == lit_at(v@, pos as int, lit@),
{
    if lit.len() > v.len() - pos {
        return false;
    }
    let mut i: usize = 0;
    while i < lit.len()
        invariant
            pos + lit.len() <= v.len(),
            i <= lit.len(),
            v@.subrange(pos as int, pos + i) == lit@.subrange(0, i as int),
        decreases lit.len() - i,
    {
        if v[pos + i] != lit[i] {
            assert(v@.subrange(pos as int, pos + lit.len())[i as int] != lit@[i as int]);
            return false;
        }
        i = i + 1;
        assert(v@.subrange(pos as int, pos + i) =~= v@.subrange(pos as int, pos + i - 1).push(
            v@[pos + i - 1],
        ));
        assert(lit@.subrange(0, i as int) =~= lit@.subrange(0, i - 1).push(lit@[i - 1]));
    }
    assert(lit@.subrange(0, lit.len() as int) =~= lit@);
    true
}

/// Whether `c` is one of the ten decimal digits.
pub open spec fn is_digit(c: char) -> bool {
    '0' <= c && c <= '9'
}

/// The number that the digit `c` stands for.
pub open spec fn digit_value(c: char) -> int {
    c as int - '0' as int
}

/// Every character of `s` is a decimal digit.
pub open spec fn all_digits(s: Seq<char>) -> bool {
    forall|i: int| 0 <= i < s.len() ==> is_digit(#[trigger] s[i])
}

/// The number written by the digits `s`, most significant first.
pub open spec fn digits_value(s: Seq<char>) -> int
    decreases s.len(),
{
    if s.len() == 0 {
        0
    } else {
        digits_value(s.drop_last()) * 10 + digit_value(s.last())
    }
}

/// What a run of digits denotes as an unsigned 64-bit number: nothing when it
/// is empty, holds another character, or is too large.
pub open spec fn unsigned_of(s: Seq<char>) -> Option<u64> {
    if s.len() > 0 && all_digits(s) && digits_value(s) <= u64::MAX {
        Some(digits_value(s) as u64)
    } else {
        None
    }
}

/// The text without one leading `+`.
pub open spec fn without_plus(s: Seq<char>) -> Seq<char> {
    if s.len() > 0 && s[0] == '+' {
        s.subrange(1, s.len() as int)
    } else {
        s
    }
}

/// A signed decimal number as the standard integer parser reads it: an
/// optional `+` or `-`, then at least one digit, nothing else, and a value
/// that fits into 64 bits.
pub open spec fn signed_of(s: Seq<char>) -> Option<i64> {
    if s.len() > 0 && s[0] == '-' {
        match unsigned_of(s.subrange(1, s.len() as int)) {
            Some(m) => if m <= 0x8000_0000_0000_0000u64 {
                Some((-(m as int)) as i64)
            } else {
                None
            },
            None => None,
        }
    } else {
        match unsigned_of(without_plus(s)) {
            Some(m) => if m <= i64::MAX as u64 {
                Some(m as i64)
            } else {
                None
            },
            None => None,
        }
    }
}

/// An unsigned decimal count as the standard integer parser reads it: an
/// optional `+`, then at least one digit, nothing else, and a value that fits
/// into a machine word.
pub open spec fn count_of(s: Seq<char>) -> Option<usize> {
    match unsigned_of(without_plus(s)) {
        Some(m) => if m <= usize::MAX as u64 {
            Some(m as usize)
        } else {
            None
        },
        None => None,
    }
}

/// A run of digits denotes at least what any of its prefixes denotes.
pub proof fn lemma_digits_monotonic(s: Seq<char>, k: int)
    requires
        all_digits(s),
        0 <= k <= s.len(),
    ensures
        0 <= digits_value(s.subrange(0, k)) <= digits_value(s),
    decreases s.len(),
{
    if k == s.len() {
        assert(s.subrange(0, k) =~= s);
        if s.len() > 0 {
            assert(is_digit(s[s.len() - 1]));
            assert(all_digits(s.drop_last()));
            lemma_digits_monotonic(s.drop_last(), k - 1);
            assert(s.drop_last().subrange(0, k - 1) =~= s.drop_last());
        } else {
        }
    } else {
        assert(is_digit(s[s.len() - 1]));
        assert(all_digits(s.drop_last()));
        lemma_digits_monotonic(s.drop_last(), k);
        assert(s.drop_last().subrange(0, k) =~= s.subrange(0, k));
    }
}

/// Reads the digits `v[from..to]` as an unsigned number.
pub fn parse_unsigned(v: &Vec<char>, from: usize, to: usize) -> (r: Option<u64>)
    requires
        from <= to <= v.len(),
    ensures
        r == unsigned_of(v@.subrange(from as int, to as int)),
{
    let ghost s = v@.subrange(from as int, to as int);
    if from == to {
        return None;
    }
    let mut acc: u128 = 0;
    let mut i: usize = from;
    while i < to
        invariant
            from <= i <= to <= v.len(),
            s == v@.subrange(from as int, to as int),
            all_digits(s.subrange(0, i - from)),
            acc == digits_value(s.subrange(0, i - from)),
            acc <= u64::MAX,
        decreases to - i,
    {
        let c = v[i];
        let ghost before = s.subrange(0, i - from);
        let ghost now = s.subrange(0, i - from + 1);
        assert(now.drop_last() =~= before);
        assert(now.last() == c);
        if !(c >= '0' && c <= '9') {
            assert(!is_digit(s[i - from]));
            return None;
        }
        let d: u128 = (c as u32 - '0' as u32) as u128;
        acc = acc * 10 + d;
        assert(acc == digits_value(now));
        assert(all_digits(now)) by {
            assert forall|j: int| 0 <= j < now.len() implies is_digit(#[trigger] now[j]) by {
                if j < before.len() {
                    assert(now[j] == before[j]);
                }
            }
        }
        if acc > u64::MAX as u128 {
            proof {
                if all_digits(s) {
                    lemma_digits_monotonic(s, i - from + 1);
                }
            }
            return None;
        }
        i = i + 1;
    }
    assert(s.subrange(0, to - from) =~= s);
    Some(acc as u64)
}

/// Reads `v[from..to]` as a signed decimal number.
pub fn parse_signed(v: &Vec<char>, from: usize, to: usize) -> (r: Option<i64>)
    requires
        from <= to <= v.len(),
    ensures
        r == signed_of(v@.subrange(from as int, to as int)),
{
    let ghost s = v@.subrange(from as int, to as int);
    if from < to && v[from] == '-' {
        assert(s.subrange(1, s.len() as int) =~= v@.subrange(from + 1, to as int));
        match parse_unsigned(v, from + 1, to) {
            Some(m) => {
                if m < 0x8000_0000_0000_0000u64 {
                    Some(-(m as i64))
                } else if m == 0x8000_0000_0000_0000u64 {
                    Some(i64::MIN)
                } else {
                    None
                }
            },
            None => None,
        }
    } else {
        let start: usize = if from < to && v[from] == '+' {
            from + 1
        } else {
            from
        };
        assert(without_plus(s) =~= v@.subrange(start as int, to as int));
        match parse_unsigned(v, start, to) {
            Some(m) => {
                if m <= i64::MAX as u64 {
                    Some(m as i64)
                } else {
                    None
                }
            },
            None => None,
        }
    }
}

/// Reads `v[from..to]` as an unsigned decimal count.
pub fn parse_count(v: &Vec<char>, from: usize, to: usize) -> (r: Option<usize>)
    requires
        from <= to <= v.len(),
    ensures
        r == count_of(v@.subrange(from as int, to as int)),
{
    let ghost s = v@.subrange(from as int, to as int);
    let start: usize = if from < to && v[from] == '+' {
        from + 1
    } else {
        from
    };
    assert(without_plus(s) =~= v@.subrange(start as int, to as int));
    match parse_unsigned(v, start, to) {
        Some(m) => {
            if m <= usize::MAX as u64 {
                Some(m as usize)
            } else {
                None
            }
        },
        None => None,
    }
}

/// The character `c` stands in `s` at position `pos`.
pub open spec fn is_at(s: Seq<char>, pos: int, c: char) -> bool {
    0 <= pos < s.len() && s[pos] == c
}

/// The part of `s` from `from` up to the end of its line.
pub open spec fn rest_of_line(s: Seq<char>, from: int) -> Seq<char> {
    s.subrange(from, find(s, from, '\n'))
}

/// The characters of `s` followed by a line feed.
pub fn line_chars(s: &str) -> (r: Vec<char>)
    ensures
        r@ == s@.push('\n'),
{
    let mut r = to_chars(s);
    r.push('\n');
    r
}

/// Whether `c` stands in `v` at position `pos`.
pub fn char_at(v: &Vec<char>, pos: usize, c: char) -> (b: bool)
    ensures
        b == is_at(v@, pos as int, c),
{
    pos < v.len() && v[pos] == c
}

/// Where reading goes on after a capture from `from` delimited by `c`.
pub fn skip_past(v: &Vec<char>, from: usize, c: char) -> (r: usize)
    requires
        from <= v.len(),
    ensures
        r == after(v@, from as int, c),
        from <= r <= v.len(),
{
    let e = find_char(v, from, c);
    if e < v.len() {
        e + 1
    } else {
        e
    }
}

/// Whether `v[from..to]` spells `lit`.
pub fn range_is(v: &Vec<char>, from: usize, to: usize, lit: &str) -> (b: bool)
    requires
        from <= to <= v.len(),
    ensures
        b == (v@.subrange(from as int, to as int) == lit@),
{
    let l = to_chars(lit);
    if l.len() != to - from {
        return false;
    }
    has_at(v, from, &l)
}

/// Whether two strings hold the same characters.
pub fn str_eq(a: &str, b: &str) -> (r: bool)
    ensures
        r == (a@ == b@),
{
    let va = to_chars(a);
    assert(va@.subrange(0, va.len() as int) =~= va@);
    range_is(&va, 0, va.len(), b)
}

/// The characters `from..to` of `line` as a string of their own.
pub fn slice_text(line: &str, from: usize, to: usize) -> (r: String)
    requires
        from <= to <= line@.len(),
    ensures
        r@ == line@.subrange(from as int, to as int),
{
    line.substring_char(from, to).to_owned()
}

/// The text of one decimal digit.
pub open spec fn digit_text(d: int) -> Seq<char> {
    if d == 0 {
        "0"@
    } else if d == 1 {
        "1"@
    } else if d == 2 {
        "2"@
    } else if d == 3 {
        "3"@
    } else if d == 4 {
        "4"@
    } else if d == 5 {
        "5"@
    } else if d == 6 {
        "6"@
    } else if d == 7 {
        "7"@
    } else if d == 8 {
        "8"@
    } else {
        "9"@
    }
}

/// The digits of a natural number, most significant first, without leading
/// zeros.
pub open spec fn digits_text(n: nat) -> Seq<char>
    decreases n,
{
    if n < 10 {
        digit_text(n as int)
    } else {
        digits_text(n / 10) + digit_text((n % 10) as int)
    }
}

/// A whole number in decimal notation, with a minus sign if it is negative.
pub open spec fn decimal_text(n: int) -> Seq<char> {
    if n < 0 {
        "-"@ + digits_text((-n) as nat)
    } else {
        digits_text(n as nat)
    }
}

/// The text of the digit `d`.
fn digit_str(d: u128) -> (r: &'static str)
    requires
        d < 10,
    ensures
        r@ == digit_text(d as int),
{
    if d == 0 {
        "0"
    } else if d == 1 {
        "1"
    } else if d == 2 {
        "2"
    } else if d == 3 {
        "3"
    } else if d == 4 {
        "4"
    } else if d == 5 {
        "5"
    } else if d == 6 {
        "6"
    } else if d == 7 {
        "7"
    } else if d == 8 {
        "8"
    } else {
        "9"
    }
}

/// Appends the digits of `n` to `out`.
fn push_digits(out: &mut String, n: u128)
    ensures
        final(out)@ == old(out)@ + digits_text(n as nat),
    decreases n,
{
    if n >= 10 {
        push_digits(out, n / 10);
    }
    out.append(digit_str(n % 10));
    assert(out@ =~= old(out)@ + digits_text(n as nat));
}

/// Appends `n` in decimal notation to `out`.
pub fn push_decimal(out: &mut String, n: i128)
    ensures
        final(out)@ == old(out)@ + decimal_text(n as int),
{
    if n < 0 {
        out.append("-");
        push_digits(out, (-(n + 1)) as u128 + 1);
        assert(out@ =~= old(out)@ + decimal_text(n as int));
    } else {
        push_digits(out, n as u128);
    }
}

/// The digits written for a natural number are digits, at least one, and
/// denote that number.
pub proof fn lemma_digits_read_back(n: nat)
    ensures
        digits_text(n).len() > 0,
        all_digits(digits_text(n)),
        digits_value(digits_text(n)) == n,
    decreases n,
{
    reveal_strlit("0");
    reveal_strlit("1");
    reveal_strlit("2");
    reveal_strlit("3");
    reveal_strlit("4");
    reveal_strlit("5");
    reveal_strlit("6");
    reveal_strlit("7");
    reveal_strlit("8");
    reveal_strlit("9");
    let d = digit_text((n % 10) as int);
    assert(d.len() == 1);
    assert(is_digit(d[0]));
    assert(digit_value(d[0]) == n % 10);
    if n < 10 {
        assert(d.drop_last() =~= Seq::<char>::empty());
        assert(digits_value(d.drop_last()) == 0);
    } else {
        lemma_digits_read_back(n / 10);
        let x = digits_text(n / 10);
        assert((x + d).drop_last() =~= x);
        assert((x + d).last() == d[0]);
        assert(all_digits(x + d)) by {
            assert forall|i: int| 0 <= i < (x + d).len() implies is_digit(#[trigger] (x + d)[i]) by {
                if i < x.len() {
                    assert((x + d)[i] == x[i]);
                }
            }
        }
    }
}

/// Writing a signed number and reading the text gives the number back.
pub proof fn lemma_signed_reads_back(n: i64)
    ensures
        signed_of(decimal_text(n as int)) == Some(n),
{
    reveal_strlit("-");
    if n < 0 {
        let m = (-(n as int)) as nat;
        lemma_digits_read_back(m);
        let s = decimal_text(n as int);
        assert(s[0] == '-');
        assert(s.subrange(1, s.len() as int) =~= digits_text(m));
    } else {
        lemma_digits_read_back(n as nat);
        let s = decimal_text(n as int);
        assert(is_digit(s[0]));
        assert(without_plus(s) == s);
    }
}

/// Writing a count and reading the text gives the count back.
pub proof fn lemma_count_reads_back(n: usize)
    ensures
        count_of(decimal_text(n as int)) == Some(n),
{
    lemma_digits_read_back(n as nat);
    let s = decimal_text(n as int);
    assert(is_digit(s[0]));
    assert(without_plus(s) == s);
}

/// The text written for a number holds digits and at most a leading minus
/// sign, so none of the characters that end a number field.
pub proof fn lemma_decimal_has_no_stop(n: int, stop: char)
    requires
        !is_digit(stop),
        stop != '-',
    ensures
        forall|i: int| 0 <= i < decimal_text(n).len() ==> decimal_text(n)[i] != stop,
{
    reveal_strlit("-");
    let m = if n < 0 {
        (-n) as nat
    } else {
        n as nat
    };
    lemma_digits_read_back(m);
    let s = decimal_text(n);
    assert forall|i: int| 0 <= i < s.len() implies s[i] != stop by {
        if n < 0 {
            if i > 0 {
                assert(s[i] == digits_text(m)[i - 1]);
                assert(is_digit(digits_text(m)[i - 1]));
            }
        } else {
            assert(is_digit(s[i]));
        }
    }
}

} // verus!
