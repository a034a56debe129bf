//! Text as sequences of characters: conversion, decimal notation, searching,
//! replacing and splitting, each proved against a short mathematical
//! definition.

use vstd::prelude::*;

use crate::outside::push_char;

verus! {

/// The characters of a string slice.
pub fn to_chars(s: &str) -> (r: Vec<char>)
    ensures
        r@ == s@,
{
    let mut out: Vec<char> = Vec::new();
    for c in it: s.chars()
        invariant
            out@ == it.seq().take(it.index() as int),
            it.seq() == s@,
    {
        out.push(c);
    }
    out
}

/// The string made of the given characters.
pub fn from_chars(chars: &Vec<char>) -> (r: String)
    ensures
        r@ == chars@,
{
    let mut out = String::new();
    let mut i: usize = 0;
    while i < chars.len()
        invariant
            i <= chars.len(),
            out@ == chars@.take(i as int),
        decreases chars.len() - i,
    {
        push_char(&mut out, chars[i]);
        i += 1;
    }
    out
}

/// The concatenation of two string slices.
pub fn join2(a: &str, b: &str) -> (r: String)
    ensures
        r@ == a@ + b@,
{
    let mut out = String::from_str(a);
    out.append(b);
    out
}

/// The concatenation of three string slices.
pub fn join3(a: &str, b: &str, c: &str) -> (r: String)
    ensures
        r@ == a@ + b@ + c@,
{
    let mut out = String::from_str(a);
    out.append(b);
    out.append(c);
    out
}

/// The concatenation of five string slices.
pub fn join5(a: &str, b: &str, c: &str, d: &str, e: &str) -> (r: String)
    ensures
        r@ == a@ + b@ + c@ + d@ + e@,
{
    let mut out = String::from_str(a);
    out.append(b);
    out.append(c);
    out.append(d);
    out.append(e);
    out
}

/// Whether two string slices hold the same characters.
pub fn same_text(a: &str, b: &str) -> (r: bool)
    ensures
        r == (a@ == b@),
{
    let x = to_chars(a);
    let y = to_chars(b);
    same_chars(&x, &y)
}

/// Whether two character vectors are equal.
pub fn same_chars(a: &Vec<char>, b: &Vec<char>) -> (r: bool)
    ensures
        r == (a@ == b@),
{
    if a.len() != b.len() {
        return false;
    }
    let mut i: usize = 0;
    while i < a.len()
        invariant
            i <= a.len(),
            a.len() == b.len(),
            a@.take(i as int) == b@.take(i as int),
        decreases a.len() - i,
    {
        if a[i] != b[i] {
            return false;
        }
        assert(a@.take(i + 1) == a@.take(i as int).push(a@[i as int]));
        assert(b@.take(i + 1) == b@.take(i as int).push(b@[i as int]));
        i += 1;
    }
    assert(a@ == a@.take(a.len() as int));
    assert(b@ == b@.take(b.len() as int));
    true
}

/// The decimal digit for a value below ten.
pub open spec fn digit_char(d: nat) -> char {
    if d == 0 {
        '0'
    } else if d == 1 {
        '1'
    } else if d == 2 {
        '2'
    } else if d == 3 {
        '3'
    } else if d == 4 {
        '4'
    } else if d == 5 {
        '5'
    } else if d == 6 {
        '6'
    } else if d == 7 {
        '7'
    } else if d == 8 {
        '8'
    } else {
        '9'
    }
}

/// Decimal notation of a natural number, without leading zeros.
pub open spec fn decimal_digits(n: nat) -> Seq<char>
    decreases n,
{
    if n < 10 {
        seq![digit_char(n)]
    } else {
        decimal_digits(n / 10).push(digit_char(n % 10))
    }
}

/// Decimal notation of an integer, with a minus sign when it is negative.
pub open spec fn signed_decimal_digits(n: int) -> Seq<char> {
    if n < 0 {
        seq!['-'] + decimal_digits((-n) as nat)
    } else {
        decimal_digits(n as nat)
    }
}

fn digit_of(d: u64) -> (c: char)
    requires
        d < 10,
    ensures
        c == digit_char(d as nat),
{
    if d == 0 {
        '0'
    } else if d == 1 {
        '1'
    } else if d == 2 {
        '2'
    } else if d == 3 {
        '3'
    } else if d == 4 {
        '4'
    } else if d == 5 {
        '5'
    } else if d == 6 {
        '6'
    } else if d == 7 {
        '7'
    } else if d == 8 {
        '8'
    } else {
        '9'
    }
}

/// Appends the decimal notation of `n` to `out`.
pub fn push_decimal(out: &mut Vec<char>, n: u64)
    ensures
        final(out)@ == old(out)@ + decimal_digits(n as nat),
    decreases n,
{
    if n >= 10 {
        push_decimal(out, n / 10);
    }
    out.push(digit_of(n % 10));
}

/// Decimal notation of `n` as characters.
pub fn decimal_chars(n: u64) -> (r: Vec<char>)
    ensures
        r@ == decimal_digits(n as nat),
{
    let mut out: Vec<char> = Vec::new();
    push_decimal(&mut out, n);
    out
}

/// Decimal notation of `n` as a string.
pub fn decimal(n: u64) -> (r: String)
    ensures
        r@ == decimal_digits(n as nat),
{
    let chars = decimal_chars(n);
    from_chars(&chars)
}

/// Decimal notation of a signed integer as a string.
pub fn signed_decimal(n: i64) -> (r: String)
    ensures
        r@ == signed_decimal_digits(n as int),
{
    let mut out: Vec<char> = Vec::new();
    if n < 0 {
        out.push('-');
        let magnitude: u64 = if n == i64::MIN {
            9_223_372_036_854_775_808u64
        } else {
            (-n) as u64
        };
        push_decimal(&mut out, magnitude);
    } else {
        push_decimal(&mut out, n as u64);
    }
    from_chars(&out)
}

/// Whether `s` ends with `suffix`.
pub open spec fn has_suffix(s: Seq<char>, suffix: Seq<char>) -> bool {
    suffix.len() <= s.len() && s.subrange(s.len() - suffix.len(), s.len() as int) == suffix
}

/// Whether `pat` occurs in `s` starting at position `at`.
pub open spec fn occurs_at(s: Seq<char>, at: int, pat: Seq<char>) -> bool {
    0 <= at && at + pat.len() <= s.len() && s.subrange(at, at + pat.len()) == pat
}

/// Tests whether `pat` occurs in `s` at position `at`.
pub fn occurs_at_index(s: &Vec<char>, at: usize, pat: &Vec<char>) -> (r: bool)
    ensures
        r == occurs_at(s@, at as int, pat@),
{
    if at > s.len() || pat.len() > s.len() - at {
        return false;
    }
    let mut k: usize = 0;
    while k < pat.len()
        invariant
            k <= pat.len(),
            at + pat.len() <= s.len(),
            s@.subrange(at as int, at + k) == pat@.take(k as int),
        decreases pat.len() - k,
    {
        if s[at + k] != pat[k] {
            assert(s@.subrange(at as int, at + pat.len())[k as int] != pat@[k as int]);
            return false;
        }
        assert(s@.subrange(at as int, at + k + 1) == s@.subrange(at as int, at + k).push(
            s@[at + k],
        ));
        assert(pat@.take(k + 1) == pat@.take(k as int).push(pat@[k as int]));
        k += 1;
    }
    assert(pat@ == pat@.take(pat.len() as int));
    true
}

/// Tests whether the string `s` ends with `suffix`.
pub fn ends_with(s: &str, suffix: &str) -> (r: bool)
    ensures
        r == has_suffix(s@, suffix@),
{
    let text = to_chars(s);
    let tail = to_chars(suffix);
    if tail.len() > text.len() {
        return false;
    }
    occurs_at_index(&text, text.len() - tail.len(), &tail)
}

/// `s` with every occurrence of `pat` replaced by `rep`, scanning from the
/// left and never overlapping; an empty `pat` leaves `s` unchanged.
pub open spec fn replaced(s: Seq<char>, pat: Seq<char>, rep: Seq<char>) -> Seq<char>
    decreases s.len(),
{
    if pat.len() == 0 || s.len() < pat.len() {
        s
    } else if s.subrange(0, pat.len() as int) == pat {
        rep + replaced(s.subrange(pat.len() as int, s.len() as int), pat, rep)
    } else {
        seq![s[0]] + replaced(s.subrange(1, s.len() as int), pat, rep)
    }
}

/// Replaces every occurrence of `pat` in `s` by `rep`.
pub fn replace_all(s: &Vec<char>, pat: &Vec<char>, rep: &Vec<char>) -> (r: Vec<char>)
    ensures
        r@ == replaced(s@, pat@, rep@),
{
    let mut out: Vec<char> = Vec::new();
    if pat.len() == 0 {
        let mut j: usize = 0;
        while j < s.len()
            invariant
                j <= s.len(),
                out@ == s@.take(j as int),
            decreases s.len() - j,
        {
            out.push(s[j]);
            j += 1;
        }
        assert(s@ == s@.take(s.len() as int));
        return out;
    }
    let mut i: usize = 0;
    assert(s@.subrange(0, s.len() as int) == s@);
    while i < s.len()
        invariant
            i <= s.len(),
            pat.len() > 0,
            out@ + replaced(s@.subrange(i as int, s.len() as int), pat@, rep@) == replaced(
                s@,
                pat@,
                rep@,
            ),
        decreases s.len() - i,
    {
        let ghost rest = s@.subrange(i as int, s.len() as int);
        let ghost before = out@;
        if occurs_at_index(s, i, pat) {
            assert(rest.subrange(0, pat.len() as int) == s@.subrange(i as int, i + pat.len()));
            assert(rest.subrange(pat.len() as int, rest.len() as int) == s@.subrange(
                i + pat.len(),
                s.len() as int,
            ));
            let mut k: usize = 0;
            while k < rep.len()
                invariant
                    k <= rep.len(),
                    out@ == before + rep@.take(k as int),
                decreases rep.len() - k,
            {
                out.push(rep[k]);
                assert(rep@.take(k + 1) == rep@.take(k as int).push(rep@[k as int]));
                k += 1;
            }
            assert(rep@ == rep@.take(rep.len() as int));
            assert(out@ + replaced(s@.subrange(i + pat.len(), s.len() as int), pat@, rep@)
                == before + (rep@ + replaced(
                rest.subrange(pat.len() as int, rest.len() as int),
                pat@,
                rep@,
            )));
            i += pat.len();
        } else {
            assert(rest.len() >= pat.len() ==> rest.subrange(0, pat.len() as int)
                == s@.subrange(i as int, i + pat.len()));
            if s.len() - i < pat.len() {
                // No further occurrence fits: the rest is copied as it is.
                let mut j: usize = i;
                while j < s.len()
                    invariant
                        i <= j <= s.len(),
                        out@ == before + s@.subrange(i as int, j as int),
                    decreases s.len() - j,
                {
                    out.push(s[j]);
                    assert(s@.subrange(i as int, j + 1) == s@.subrange(i as int, j as int).push(
                        s@[j as int],
                    ));
                    j += 1;
                }
                assert(s@.subrange(s.len() as int, s.len() as int) == Seq::<char>::empty());
                assert(replaced(Seq::<char>::empty(), pat@, rep@) == Seq::<char>::empty());
                i = s.len();
            } else {
                assert(rest.subrange(1, rest.len() as int) == s@.subrange(i + 1, s.len() as int));
                out.push(s[i]);
                assert(out@ + replaced(s@.subrange(i + 1, s.len() as int), pat@, rep@) == before
                    + (seq![rest[0]] + replaced(rest.subrange(1, rest.len() as int), pat@, rep@)));
                i += 1;
            }
        }
    }
    assert(s@.subrange(s.len() as int, s.len() as int) == Seq::<char>::empty());
    assert(replaced(Seq::<char>::empty(), pat@, rep@) == Seq::<char>::empty());
    out
}

/// Whether `s` starts with `prefix`.
pub open spec fn has_prefix(s: Seq<char>, prefix: Seq<char>) -> bool {
    prefix.len() <= s.len() && s.subrange(0, prefix.len() as int) == prefix
}

/// Tests whether the string `s` starts with `prefix`.
pub fn starts_with(s: &str, prefix: &str) -> (r: bool)
    ensures
        r == has_prefix(s@, prefix@),
{
    let text = to_chars(s);
    let head = to_chars(prefix);
    occurs_at_index(&text, 0, &head)
}

/// Tests whether `list` holds the text `x`.
pub fn contains_text(list: &Vec<String>, x: &str) -> (r: bool)
    ensures
        r == list.deep_view().contains(x@),
{
    let mut i: usize = 0;
    while i < list.len()
        invariant
            i <= list.len(),
            forall|k: int| 0 <= k < i ==> list.deep_view()[k] != x@,
        decreases list.len() - i,
    {
        if same_text(list[i].as_str(), x) {
            assert(list.deep_view()[i as int] == x@);
            return true;
        }
        i += 1;
    }
    false
}

/// The position of the first `c` in `s`, or the length of `s` when there is
/// none.
pub open spec fn first_index(s: Seq<char>, c: char) -> int
    decreases s.len(),
{
    if s.len() == 0 {
        0
    } else if s[0] == c {
        0
    } else {
        1 + first_index(s.subrange(1, s.len() as int), c)
    }
}

/// The pieces of `s` between the occurrences of `c`: one more piece than
/// there are occurrences, empty pieces included.
pub open spec fn split(s: Seq<char>, c: char) -> Seq<Seq<char>>
    decreases s.len(),
{
    let k = first_index(s, c);
    if 0 <= k < s.len() {
        seq![s.subrange(0, k)] + split(s.subrange(k + 1, s.len() as int), c)
    } else {
        seq![s]
    }
}

/// `first_index` lies within the sequence and names its first `c`.
pub proof fn lemma_first_index(s: Seq<char>, c: char)
    ensures
        0 <= first_index(s, c) <= s.len(),
        first_index(s, c) < s.len() ==> s[first_index(s, c)] == c,
        forall|i: int| 0 <= i < first_index(s, c) ==> s[i] != c,
    decreases s.len(),
{
    if s.len() > 0 && s[0] != c {
        let rest = s.subrange(1, s.len() as int);
        lemma_first_index(rest, c);
        assert forall|i: int| 0 <= i < first_index(s, c) implies s[i] != c by {
            if i > 0 {
                assert(rest[i - 1] == s[i]);
            }
        }
        if first_index(s, c) < s.len() {
            assert(rest[first_index(rest, c)] == s[first_index(s, c)]);
        }
    }
}

/// A position that holds `c` with no `c` before it is the first index.
pub proof fn lemma_first_index_is(s: Seq<char>, c: char, k: int)
    requires
        0 <= k <= s.len(),
        forall|i: int| 0 <= i < k ==> s[i] != c,
        k < s.len() ==> s[k] == c,
    ensures
        first_index(s, c) == k,
    decreases s.len(),
{
    if s.len() > 0 && k > 0 {
        let rest = s.subrange(1, s.len() as int);
        assert(s[0] != c);
        assert forall|i: int| 0 <= i < k - 1 implies rest[i] != c by {
            assert(rest[i] == s[i + 1]);
        }
        if k < s.len() {
            assert(rest[k - 1] == s[k]);
        }
        lemma_first_index_is(rest, c, k - 1);
    }
}

/// The deep view of a vector of characters is its view.
pub proof fn lemma_chars_deep_view(v: Vec<char>)
    ensures
        v.deep_view() == v@,
{
    assert(v.deep_view() =~= v@);
}

/// Splits `s` at every occurrence of `c`.
pub fn split_on(s: &Vec<char>, c: char) -> (r: Vec<Vec<char>>)
    ensures
        r.deep_view() == split(s@, c),
        r.len() >= 1,
{
    let mut out: Vec<Vec<char>> = Vec::new();
    let mut piece: Vec<char> = Vec::new();
    let mut start: usize = 0;
    let mut i: usize = 0;
    assert(s@.subrange(0, s.len() as int) == s@);
    assert(out.deep_view() =~= Seq::<Seq<char>>::empty());
    while i < s.len()
        invariant
            start <= i <= s.len(),
            piece@ == s@.subrange(start as int, i as int),
            forall|k: int| start <= k < i ==> s@[k] != c,
            out.deep_view() + split(s@.subrange(start as int, s.len() as int), c) == split(s@, c),
        decreases s.len() - i,
    {
        let ghost rest = s@.subrange(start as int, s.len() as int);
        if s[i] == c {
            let ghost before = out.deep_view();
            let ghost first = s@.subrange(start as int, i as int);
            let ghost tail = s@.subrange(i + 1, s.len() as int);
            proof {
                assert forall|k: int| 0 <= k < i - start implies rest[k] != c by {
                    assert(rest[k] == s@[start + k]);
                }
                lemma_first_index_is(rest, c, i - start);
                assert(rest.subrange(0, i - start) == first);
                assert(rest.subrange(i - start + 1, rest.len() as int) == tail);
                assert(split(rest, c) == seq![first] + split(tail, c));
                lemma_chars_deep_view(piece);
            }
            out.push(piece);
            assert(out.deep_view() =~= before.push(first));
            piece = Vec::new();
            start = i + 1;
            assert(before.push(first) + split(tail, c) =~= before + (seq![first] + split(tail, c)));
        } else {
            piece.push(s[i]);
            assert(s@.subrange(start as int, i + 1) == s@.subrange(start as int, i as int).push(
                s@[i as int],
            ));
        }
        i += 1;
    }
    let ghost before = out.deep_view();
    proof {
        let rest = s@.subrange(start as int, s.len() as int);
        assert forall|k: int| 0 <= k < rest.len() implies rest[k] != c by {
            assert(rest[k] == s@[start + k]);
        }
        lemma_first_index_is(rest, c, rest.len() as int);
        assert(split(rest, c) == seq![rest]);
        lemma_chars_deep_view(piece);
    }
    out.push(piece);
    assert(out.deep_view() =~= before.push(s@.subrange(start as int, s.len() as int)));
    assert(before.push(s@.subrange(start as int, s.len() as int)) =~= before + seq![
        s@.subrange(start as int, s.len() as int),
    ]);
    out
}

/// The pieces `parts[from..to]` written one after the other with `sep`
/// between each two.
pub open spec fn joined(parts: Seq<Seq<char>>, from: int, to: int, sep: Seq<char>) -> Seq<char>
    decreases to - from,
{
    if to <= from {
        Seq::empty()
    } else if to == from + 1 {
        parts[from]
    } else {
        joined(parts, from, to - 1, sep) + sep + parts[to - 1]
    }
}

/// Writes the pieces `parts[from..to]` one after the other with `sep`
/// between each two.
pub fn join_range(parts: &Vec<Vec<char>>, from: usize, to: usize, sep: &Vec<char>) -> (r: Vec<char>)
    requires
        from <= to <= parts.len(),
    ensures
        r@ == joined(parts.deep_view(), from as int, to as int, sep@),
{
    let mut out: Vec<char> = Vec::new();
    let mut i: usize = from;
    while i < to
        invariant
            from <= i <= to <= parts.len(),
            out@ == joined(parts.deep_view(), from as int, i as int, sep@),
        decreases to - i,
    {
        if i > from {
            append_chars(&mut out, sep);
        }
        append_chars(&mut out, &parts[i]);
        proof {
            lemma_chars_deep_view(parts[i as int]);
        }
        i += 1;
    }
    out
}

/// Appends the characters of `more` to `out`.
pub fn append_chars(out: &mut Vec<char>, more: &Vec<char>)
    ensures
        final(out)@ == old(out)@ + more@,
{
    let mut k: usize = 0;
    while k < more.len()
        invariant
            k <= more.len(),
            out@ == old(out)@ + more@.take(k as int),
        decreases more.len() - k,
    {
        out.push(more[k]);
        assert(more@.take(k + 1) == more@.take(k as int).push(more@[k as int]));
        k += 1;
    }
    assert(more@ == more@.take(more.len() as int));
}

/// The last `width` decimal digits of `n`, with leading zeros.
pub open spec fn trailing_digits(n: nat, width: nat) -> Seq<char>
    decreases width,
{
    if width == 0 {
        Seq::empty()
    } else {
        trailing_digits(n / 10, (width - 1) as nat).push(digit_char(n % 10))
    }
}

/// A number in millionths rounded to `decimals` decimal places, halves
/// upward, counted in units of the last place.
pub open spec fn rounded_to(millionths: nat, decimals: nat) -> nat {
    (millionths + place_value((6 - decimals) as nat) / 2) / place_value((6 - decimals) as nat)
}

/// A number in millionths written with its whole part, a point, and
/// `decimals` decimal places, rounded to the last of them.
pub open spec fn fixed_digits(millionths: nat, decimals: nat) -> Seq<char> {
    decimal_digits(rounded_to(millionths, decimals) / place_value(decimals)) + seq!['.'] + trailing_digits(
        rounded_to(millionths, decimals) % place_value(decimals),
        decimals,
    )
}

/// Ten to the power `places`.
pub open spec fn place_value(places: nat) -> nat
    decreases places,
{
    if places == 0 {
        1
    } else {
        10 * place_value((places - 1) as nat)
    }
}

/// A number of thousandths written with its whole part, a point, and three
/// decimal places.
pub open spec fn thousandths_digits(thousandths: nat) -> Seq<char> {
    decimal_digits(thousandths / 1000) + seq!['.'] + trailing_digits(thousandths % 1000, 3)
}

/// Appends the last `width` decimal digits of `n` to `out`.
pub fn push_trailing_digits(out: &mut Vec<char>, n: u64, width: u8)
    ensures
        final(out)@ == old(out)@ + trailing_digits(n as nat, width as nat),
    decreases width,
{
    if width > 0 {
        push_trailing_digits(out, n / 10, width - 1);
        out.push(digit_of(n % 10));
    }
}

fn power_of_ten(places: u8) -> (r: u64)
    requires
        places <= 6,
    ensures
        r == place_value(places as nat),
        1 <= r <= 1_000_000,
{
    let mut value: u64 = 1;
    let mut k: u8 = 0;
    while k < places
        invariant
            k <= places <= 6,
            value == place_value(k as nat),
            1 <= value,
            value <= 1_000_000,
            k < 6 ==> value <= 100_000,
        decreases places - k,
    {
        proof {
            reveal_with_fuel(place_value, 8);
        }
        value = value * 10;
        k += 1;
    }
    value
}

/// Writes a number in millionths with `decimals` decimal places, from one
/// to six, rounded to the last of them.
pub fn fixed(millionths: u64, decimals: u8) -> (r: String)
    requires
        1 <= decimals <= 6,
    ensures
        r@ == fixed_digits(millionths as nat, decimals as nat),
{
    let unit = power_of_ten(6 - decimals);
    let scale = power_of_ten(decimals);
    let rounded: u128 = (millionths as u128 + (unit / 2) as u128) / (unit as u128);
    assert(rounded <= 0xffff_ffff_ffff_ffff) by (nonlinear_arith)
        requires
            rounded == (millionths + unit / 2) / (unit as int),
            millionths <= 0xffff_ffff_ffff_ffff,
            1 <= unit <= 1_000_000,
    ;
    let whole: u128 = rounded / (scale as u128);
    let part: u128 = rounded % (scale as u128);
    assert(whole <= rounded) by (nonlinear_arith)
        requires
            whole == rounded / (scale as u128),
            scale >= 1,
    ;
    let mut out: Vec<char> = Vec::new();
    push_decimal(&mut out, whole as u64);
    out.push('.');
    push_trailing_digits(&mut out, part as u64, decimals);
    from_chars(&out)
}

/// Writes a number of thousandths with three decimal places.
pub fn thousandths(value: u64) -> (r: String)
    ensures
        r@ == thousandths_digits(value as nat),
{
    let mut out: Vec<char> = Vec::new();
    push_decimal(&mut out, value / 1000);
    out.push('.');
    push_trailing_digits(&mut out, value % 1000, 3);
    from_chars(&out)
}

} // verus!
