//! Text primitives over sequences of characters.
//!
//! Every function here is stated over the view of a string, `Seq<char>`, so
//! that the modules built on top can phrase their contracts as equations
//! between character sequences.

use vstd::prelude::*;

verus! {

/// `String::push` appends one character to the end of the string.
pub assume_specification[ String::push ](s: &mut String, c: char)
    ensures
        final(s)@ == old(s)@.push(c),
;

/// What `str::to_lowercase` returns for a string with these characters.
pub uninterp spec fn lowercase_of(s: Seq<char>) -> Seq<char>;

/// `str::to_lowercase` returns the lowercase equivalent of a string, as the
/// Unicode property Lowercase defines it; the result depends on the
/// characters alone.
pub assume_specification[ str::to_lowercase ](s: &str) -> (lower: String)
    ensures
        lower@ == lowercase_of(s@),
;

// ---------------------------------------------------------------------------
// Conversions
// ---------------------------------------------------------------------------

/// The characters of `s`, in order.
pub fn to_chars(s: &str) -> (v: Vec<char>)
    ensures
        v@ == s@,
{
    let mut v: Vec<char> = Vec::new();
    for c in it: s.chars()
        invariant
            v@ == it.seq().take(it.index()),
    {
        v.push(c);
    }
    v
}

/// The string made of the characters `v[from..to]`.
pub fn from_chars_range(v: &Vec<char>, from: usize, to: usize) -> (s: String)
    requires
        from <= to <= v.len(),
    ensures
        s@ == v@.subrange(from as int, to as int),
{
    let mut s = String::new();
    let mut i: usize = from;
    while i < to
        invariant
            from <= i <= to <= v.len(),
            s@ == v@.subrange(from as int, i as int),
        decreases to - i,
    {
        s.push(v[i]);
        i += 1;
    }
    s
}

/// The string made of the characters of `v`, in order.
pub fn from_chars(v: &Vec<char>) -> (s: String)
    ensures
        s@ == v@,
{
    from_chars_range(v, 0, v.len())
}

/// Whether two strings hold the same characters.
pub fn same_text(a: &str, b: &str) -> (r: bool)
    ensures
        r == (a@ == b@),
{
    let x = a.to_owned();
    let y = b.to_owned();
    x == y
}

/// The views of a sequence of strings.
pub open spec fn views(parts: Seq<String>) -> Seq<Seq<char>> {
    Seq::new(parts.len(), |i: int| parts[i]@)
}

/// The view of an optional string.
pub open spec fn opt_text(o: Option<String>) -> Option<Seq<char>> {
    match o {
        Some(s) => Some(s@),
        None => None,
    }
}

/// A copy of an optional string.
pub fn copy_opt(o: &Option<String>) -> (r: Option<String>)
    ensures
        opt_text(r) == opt_text(*o),
{
    match o {
        Some(s) => Some(s.clone()),
        None => None,
    }
}

/// A copy of a list of strings.
pub fn copy_all(v: &Vec<String>) -> (r: Vec<String>)
    ensures
        views(r@) == views(v@),
{
    let mut r: Vec<String> = Vec::new();
    let mut i: usize = 0;
    while i < v.len()
        invariant
            i <= v.len(),
            r.len() == i,
            forall|j: int| 0 <= j < i ==> r@[j]@ == v@[j]@,
        decreases v.len() - i,
    {
        r.push(v[i].clone());
        i += 1;
    }
    assert(views(r@) =~= views(v@));
    r
}

// ---------------------------------------------------------------------------
// Searching
// ---------------------------------------------------------------------------

/// The index of the first occurrence of `c` in `s`, or `s.len()` when `c`
/// does not occur.
pub open spec fn find_char(s: Seq<char>, c: char) -> int
    decreases s.len(),
{
    if s.len() == 0 {
        0
    } else if s[0] == c {
        0
    } else {
        1 + find_char(s.skip(1), c)
    }
}

/// `find_char` is the least index that holds `c`, and is `s.len()` exactly
/// when `c` does not occur.
pub proof fn lemma_find_char(s: Seq<char>, c: char)
    ensures
        0 <= find_char(s, c) <= s.len(),
        find_char(s, c) < s.len() ==> s[find_char(s, c)] == c,
        forall|j: int| 0 <= j < find_char(s, c) ==> s[j] != c,
        find_char(s, c) == s.len() <==> !s.contains(c),
    decreases s.len(),
{
    if s.len() == 0 {
    } else if s[0] == c {
    } else {
        let t = s.skip(1);
        lemma_find_char(t, c);
        assert forall|j: int| 0 <= j < find_char(s, c) implies s[j] != c by {
            if j > 0 {
                assert(t[j - 1] == s[j]);
            }
        }
        if find_char(t, c) < t.len() {
            assert(s[find_char(s, c)] == t[find_char(t, c)]);
        } else {
            assert forall|j: int| 0 <= j < s.len() implies s[j] != c by {
                if j > 0 {
                    assert(t[j - 1] == s[j]);
                    assert(t.contains(t[j - 1]));
                }
            }
        }
    }
}

/// The least index `i >= from` with `v[i] == c`, or `v.len()` when there is
/// none.
pub fn index_of_from(v: &Vec<char>, c: char, from: usize) -> (i: usize)
    requires
        from <= v.len(),
    ensures
        i == from + find_char(v@.skip(from as int), c),
        from <= i <= v.len(),
{
    let mut i: usize = from;
    while i < v.len() && v[i] != c
        invariant
            from <= i <= v.len(),
            from + find_char(v@.skip(from as int), c) == i + find_char(v@.skip(i as int), c),
        decreases v.len() - i,
    {
        proof {
            let t = v@.skip(i as int);
            assert(t[0] == v@[i as int]);
            assert(t.skip(1) =~= v@.skip(i + 1));
        }
        i += 1;
    }
    proof {
        let t = v@.skip(i as int);
        if i < v.len() {
            assert(t[0] == v@[i as int]);
        }
    }
    i
}

/// Whether `c` occurs in `s`.
pub fn contains_char(s: &str, c: char) -> (r: bool)
    ensures
        r == s@.contains(c),
{
    let v = to_chars(s);
    let i = index_of_from(&v, c, 0);
    proof {
        assert(v@.skip(0) =~= v@);
        lemma_find_char(v@, c);
    }
    i < v.len()
}

/// How often `c` occurs in `s`.
pub open spec fn count_char(s: Seq<char>, c: char) -> nat
    decreases s.len(),
{
    if s.len() == 0 {
        0
    } else {
        count_char(s.drop_last(), c) + if s.last() == c {
            1nat
        } else {
            0nat
        }
    }
}

/// How often `c` occurs in `v[..to]`.
pub fn count_in(v: &Vec<char>, to: usize, c: char) -> (n: usize)
    requires
        to <= v.len(),
    ensures
        n == count_char(v@.take(to as int), c),
        n <= to,
{
    let mut n: usize = 0;
    let mut i: usize = 0;
    while i < to
        invariant
            i <= to <= v.len(),
            n <= i,
            n == count_char(v@.take(i as int), c),
        decreases to - i,
    {
        proof {
            let t = v@.take(i + 1);
            assert(t.drop_last() =~= v@.take(i as int));
            assert(t.last() == v@[i as int]);
        }
        if v[i] == c {
            n += 1;
        }
        i += 1;
    }
    n
}

/// Whether `s` begins with `prefix`.
pub open spec fn has_prefix(s: Seq<char>, prefix: Seq<char>) -> bool {
    prefix.len() <= s.len() && s.take(prefix.len() as int) == prefix
}

/// Whether `v[at..]` begins with `p`.
pub fn prefix_at(v: &Vec<char>, at: usize, p: &Vec<char>) -> (r: bool)
    requires
        at <= v.len(),
    ensures
        r == has_prefix(v@.skip(at as int), p@),
{
    if p.len() > v.len() - at {
        return false;
    }
    let mut i: usize = 0;
    while i < p.len()
        invariant
            at <= v.len(),
            p.len() <= v.len() - at,
            i <= p.len(),
            forall|j: int| 0 <= j < i ==> v@[at + j] == p@[j],
        decreases p.len() - i,
    {
        if v[at + i] != p[i] {
            proof {
                let t = v@.skip(at as int).take(p.len() as int);
                assert(t[i as int] == v@[at + i]);
            }
            return false;
        }
        i += 1;
    }
    proof {
        assert(v@.skip(at as int).take(p.len() as int) =~= p@);
    }
    true
}

/// Whether `s` begins with `prefix`.
pub fn starts_with(s: &str, prefix: &str) -> (r: bool)
    ensures
        r == has_prefix(s@, prefix@),
{
    let v = to_chars(s);
    let p = to_chars(prefix);
    proof {
        assert(v@.skip(0) =~= v@);
    }
    prefix_at(&v, 0, &p)
}

/// Whether `needle` occurs in `s` as a contiguous run.
pub open spec fn has_substring(s: Seq<char>, needle: Seq<char>) -> bool {
    exists|i: int| 0 <= i <= s.len() && #[trigger] has_prefix(s.skip(i), needle)
}

/// Whether `needle` occurs in `s` as a contiguous run.
pub fn contains_text(s: &str, needle: &str) -> (r: bool)
    ensures
        r == has_substring(s@, needle@),
{
    let v = to_chars(s);
    let p = to_chars(needle);
    let mut i: usize = 0;
    while i < v.len()
        invariant
            i <= v.len(),
            v@ == s@,
            p@ == needle@,
            forall|j: int| 0 <= j < i ==> !#[trigger] has_prefix(v@.skip(j), p@),
        decreases v.len() - i,
    {
        if prefix_at(&v, i, &p) {
            return true;
        }
        i += 1;
    }
    prefix_at(&v, i, &p)
}

// ---------------------------------------------------------------------------
// Decimal numbers
// ---------------------------------------------------------------------------

/// The character that writes the digit `d`.
pub open spec fn digit_char(d: int) -> char {
    if d == 0 {
        '0'
    } else if d == 1 {
        '1'
    } else if d == 2 {
        '2'
    } else if d == 3 {
        '3'
    } else if d == 4 {
        '4'
    } else if d == 5 {
        '5'
    } else if d == 6 {
        '6'
    } else if d == 7 {
        '7'
    } else if d == 8 {
        '8'
    } else {
        '9'
    }
}

/// Whether `c` is one of the ten ASCII digits.
pub open spec fn is_digit(c: char) -> bool {
    '0' <= c <= '9'
}

/// The value of the digit `c`.
pub open spec fn digit_value(c: char) -> int {
    c as int - '0' as int
}

/// The decimal notation of `n`, without sign or leading zeros.
pub open spec fn decimal(n: nat) -> Seq<char>
    decreases n,
{
    if n < 10 {
        seq![digit_char(n as int)]
    } else {
        decimal(n / 10).push(digit_char((n % 10) as int))
    }
}

/// The number that a run of digits writes, read most significant digit first.
pub open spec fn decimal_value(s: Seq<char>) -> nat
    decreases s.len(),
{
    if s.len() == 0 {
        0
    } else {
        (decimal_value(s.drop_last()) * 10 + digit_value(s.last())) as nat
    }
}

/// Whether `s` is a non-empty run of ASCII digits.
pub open spec fn all_digits(s: Seq<char>) -> bool {
    s.len() > 0 && forall|i: int| 0 <= i < s.len() ==> is_digit(#[trigger] s[i])
}

fn digit_of(d: u128) -> (c: char)
    requires
        d < 10,
    ensures
        c == digit_char(d as int),
        is_digit(c),
        digit_value(c) == d,
{
    if d == 0 {
        '0'
    } else if d == 1 {
        '1'
    } else if d == 2 {
        '2'
    } else if d == 3 {
        '3'
    } else if d == 4 {
        '4'
    } else if d == 5 {
        '5'
    } else if d == 6 {
        '6'
    } else if d == 7 {
        '7'
    } else if d == 8 {
        '8'
    } else {
        '9'
    }
}

fn push_decimal(out: &mut String, n: u128)
    ensures
        final(out)@ == old(out)@ + decimal(n as nat),
    decreases n,
{
    if n >= 10 {
        push_decimal(out, n / 10);
    }
    out.push(digit_of(n % 10));
    proof {
        if n >= 10 {
            assert(final(out)@ =~= old(out)@ + decimal(n as nat));
        } else {
            assert(final(out)@ =~= old(out)@ + decimal(n as nat));
        }
    }
}

/// Writes `n` in decimal.
pub fn format_decimal(n: u64) -> (s: String)
    ensures
        s@ == decimal(n as nat),
{
    format_decimal_wide(n as u128)
}

/// Writes `n` in decimal.
pub fn format_decimal_wide(n: u128) -> (s: String)
    ensures
        s@ == decimal(n as nat),
{
    let mut s = String::new();
    push_decimal(&mut s, n);
    assert(s@ =~= decimal(n as nat));
    s
}

/// The decimal notation of a whole number: a minus sign before the digits
/// of a negative one.
pub open spec fn signed_decimal(n: int) -> Seq<char> {
    if n < 0 {
        "-"@ + decimal((-n) as nat)
    } else {
        decimal(n as nat)
    }
}

/// Writes a signed number in decimal.
pub fn format_signed(n: i64) -> (s: String)
    ensures
        s@ == signed_decimal(n as int),
{
    if n < 0 {
        let magnitude: u128 = (-(n as i128)) as u128;
        let mut s = "-".to_owned();
        s.append(format_decimal_wide(magnitude).as_str());
        s
    } else {
        format_decimal(n as u64)
    }
}

/// Reading back what `decimal` wrote gives the number again, and what it
/// wrote is a run of digits.
pub proof fn lemma_decimal_round_trip(n: nat)
    ensures
        all_digits(decimal(n)),
        decimal_value(decimal(n)) == n,
    decreases n,
{
    if n < 10 {
        let s = decimal(n);
        assert(s.drop_last() =~= Seq::<char>::empty());
        assert(decimal_value(s.drop_last()) == 0);
    } else {
        lemma_decimal_round_trip(n / 10);
        let s = decimal(n);
        assert(s.drop_last() =~= decimal(n / 10));
    }
}

/// Reads a run of digits as a number: `Some` exactly when every character is
/// a digit, there is at least one, and the value fits in 64 bits.
pub fn parse_decimal(s: &str) -> (r: Option<u64>)
    ensures
        r is Some <==> all_digits(s@) && decimal_value(s@) <= u64::MAX,
        r matches Some(n) ==> n == decimal_value(s@),
{
    let v = to_chars(s);
    if v.len() == 0 {
        return None;
    }
    let mut acc: u64 = 0;
    let mut i: usize = 0;
    while i < v.len()
        invariant
            i <= v.len(),
            v@ == s@,
            forall|j: int| 0 <= j < i ==> is_digit(#[trigger] v@[j]),
            acc == decimal_value(v@.take(i as int)),
        decreases v.len() - i,
    {
        let c = v[i];
        if !(c >= '0' && c <= '9') {
            return None;
        }
        let d: u64 = (c as u32 - '0' as u32) as u64;
        proof {
            let t = v@.take(i + 1);
            assert(t.drop_last() =~= v@.take(i as int));
            assert(t.last() == c);
            assert(decimal_value(t) == acc * 10 + d);
            lemma_decimal_value_grows(v@, i + 1);
        }
        if acc > (u64::MAX - d) / 10 {
            return None;
        }
        acc = acc * 10 + d;
        i += 1;
    }
    proof {
        assert(v@.take(v.len() as int) =~= v@);
    }
    Some(acc)
}

/// A longer run of digits does not write a smaller number than its prefix.
proof fn lemma_decimal_value_grows(s: Seq<char>, k: int)
    requires
        0 <= k <= s.len(),
        forall|j: int| 0 <= j < k ==> is_digit(#[trigger] s[j]),
    ensures
        all_digits(s) ==> decimal_value(s.take(k)) <= decimal_value(s),
    decreases s.len() - k,
{
    if all_digits(s) {
        if k == s.len() {
            assert(s.take(k) =~= s);
        } else {
            let t = s.drop_last();
            assert(t.take(k) =~= s.take(k));
            assert(is_digit(s[s.len() - 1]));
            if k == t.len() {
                assert(t.take(k) =~= t);
            } else {
                lemma_decimal_value_grows(t, k);
            }
        }
    }
}

// ---------------------------------------------------------------------------
// Joining and splitting
// ---------------------------------------------------------------------------

/// The parts written one after the other with `sep` between each two.
pub open spec fn joined(parts: Seq<Seq<char>>, sep: Seq<char>) -> Seq<char>
    decreases parts.len(),
{
    if parts.len() == 0 {
        Seq::empty()
    } else if parts.len() == 1 {
        parts[0]
    } else {
        joined(parts.drop_last(), sep) + sep + parts.last()
    }
}

/// Writes the parts one after the other with `sep` between each two.
pub fn join(parts: &Vec<String>, sep: &str) -> (s: String)
    ensures
        s@ == joined(views(parts@), sep@),
{
    let mut s = String::new();
    let mut i: usize = 0;
    while i < parts.len()
        invariant
            i <= parts.len(),
            s@ == joined(views(parts@).take(i as int), sep@),
        decreases parts.len() - i,
    {
        proof {
            let t = views(parts@).take(i + 1);
            assert(t.drop_last() =~= views(parts@).take(i as int));
            assert(t.last() == parts@[i as int]@);
        }
        if i > 0 {
            s.append(sep);
        }
        s.append(parts[i].as_str());
        proof {
            let t = views(parts@).take(i + 1);
            if i == 0 {
                assert(s@ =~= t[0]);
            }
        }
        i += 1;
    }
    proof {
        assert(views(parts@).take(parts.len() as int) =~= views(parts@));
    }
    s
}

/// The pieces of `s` between the occurrences of `sep`: one more piece than
/// there are occurrences.
pub open spec fn split_of(s: Seq<char>, sep: char) -> Seq<Seq<char>>
    decreases s.len(),
{
    let i = find_char(s, sep);
    if 0 <= i < s.len() {
        seq![s.take(i)] + split_of(s.skip(i + 1), sep)
    } else {
        seq![s]
    }
}

/// Cuts `v[from..]` at each occurrence of `sep`.
pub fn split_chars(v: &Vec<char>, from: usize, sep: char) -> (pieces: Vec<String>)
    requires
        from <= v.len(),
    ensures
        views(pieces@) == split_of(v@.skip(from as int), sep),
{
    let mut pieces: Vec<String> = Vec::new();
    let mut pos: usize = from;
    loop
        invariant
            from <= pos <= v.len(),
            split_of(v@.skip(from as int), sep) == views(pieces@) + split_of(
                v@.skip(pos as int),
                sep,
            ),
        decreases v.len() - pos,
    {
        let ghost rest = v@.skip(pos as int);
        let i = index_of_from(v, sep, pos);
        proof {
            lemma_find_char(rest, sep);
        }
        let ghost before = views(pieces@);
        if i < v.len() {
            pieces.push(from_chars_range(v, pos, i));
            proof {
                assert(v@.subrange(pos as int, i as int) =~= rest.take(i - pos));
                assert(rest.skip(i - pos + 1) =~= v@.skip(i + 1));
                assert(views(pieces@) =~= before + seq![rest.take(i - pos)]);
            }
            pos = i + 1;
        } else {
            pieces.push(from_chars_range(v, pos, v.len()));
            proof {
                assert(v@.subrange(pos as int, v.len() as int) =~= rest);
                assert(views(pieces@) =~= before + seq![rest]);
            }
            return pieces;
        }
    }
}

/// Cuts `s` at each occurrence of `sep`.
pub fn split(s: &str, sep: char) -> (pieces: Vec<String>)
    ensures
        views(pieces@) == split_of(s@, sep),
{
    let v = to_chars(s);
    assert(v@.skip(0) =~= v@);
    split_chars(&v, 0, sep)
}

/// `s` with every `from` turned into `to`.
pub open spec fn replaced(s: Seq<char>, from: char, to: char) -> Seq<char> {
    Seq::new(
        s.len(),
        |i: int|
            if s[i] == from {
                to
            } else {
                s[i]
            },
    )
}

/// Turns every `from` in `s` into `to`.
pub fn replace_char(s: &str, from: char, to: char) -> (r: String)
    ensures
        r@ == replaced(s@, from, to),
{
    let v = to_chars(s);
    let mut r = String::new();
    let mut i: usize = 0;
    while i < v.len()
        invariant
            i <= v.len(),
            r@ == replaced(v@, from, to).take(i as int),
        decreases v.len() - i,
    {
        let c = v[i];
        if c == from {
            r.push(to);
        } else {
            r.push(c);
        }
        proof {
            assert(r@ =~= replaced(v@, from, to).take(i + 1));
        }
        i += 1;
    }
    proof {
        assert(replaced(v@, from, to).take(v.len() as int) =~= replaced(v@, from, to));
    }
    r
}

// ---------------------------------------------------------------------------
// White space and lines
// ---------------------------------------------------------------------------

/// Whether `c` has the Unicode property White_Space.
pub open spec fn is_whitespace(c: char) -> bool {
    let u = c as u32;
    (0x09 <= u <= 0x0D) || u == 0x20 || u == 0x85 || u == 0xA0 || u == 0x1680 || (0x2000 <= u
        <= 0x200A) || u == 0x2028 || u == 0x2029 || u == 0x202F || u == 0x205F || u == 0x3000
}

pub fn whitespace(c: char) -> (r: bool)
    ensures
        r == is_whitespace(c),
{
    let u = c as u32;
    (0x09 <= u && u <= 0x0D) || u == 0x20 || u == 0x85 || u == 0xA0 || u == 0x1680 || (0x2000 <= u
        && u <= 0x200A) || u == 0x2028 || u == 0x2029 || u == 0x202F || u == 0x205F || u == 0x3000
}

/// The number of white-space characters at the start of `s`.
pub open spec fn leading_space(s: Seq<char>) -> nat
    decreases s.len(),
{
    if s.len() > 0 && is_whitespace(s[0]) {
        1 + leading_space(s.skip(1))
    } else {
        0
    }
}

/// The number of white-space characters at the end of `s`.
pub open spec fn trailing_space(s: Seq<char>) -> nat
    decreases s.len(),
{
    if s.len() > 0 && is_whitespace(s.last()) {
        1 + trailing_space(s.drop_last())
    } else {
        0
    }
}

pub proof fn lemma_space_bounds(s: Seq<char>)
    ensures
        leading_space(s) <= s.len(),
        trailing_space(s) <= s.len(),
    decreases s.len(),
{
    if s.len() > 0 {
        lemma_space_bounds(s.skip(1));
        lemma_space_bounds(s.drop_last());
    }
}

/// `s` without the white space at its start.
pub open spec fn trimmed_start(s: Seq<char>) -> Seq<char> {
    s.skip(leading_space(s) as int)
}

/// `s` without the white space at its end.
pub open spec fn trimmed_end(s: Seq<char>) -> Seq<char> {
    s.take(s.len() - trailing_space(s))
}

/// `s` without the white space at its start and at its end.
pub open spec fn trimmed(s: Seq<char>) -> Seq<char> {
    trimmed_end(trimmed_start(s))
}

/// The bounds of `v[from..to]` without the white space around it.
pub fn trim_bounds(v: &Vec<char>, from: usize, to: usize) -> (r: (usize, usize))
    requires
        from <= to <= v.len(),
    ensures
        from <= r.0 <= r.1 <= to,
        v@.subrange(r.0 as int, r.1 as int) == trimmed(v@.subrange(from as int, to as int)),
{
    let ghost whole = v@.subrange(from as int, to as int);
    let mut a: usize = from;
    while a < to && whitespace(v[a])
        invariant
            from <= a <= to <= v.len(),
            leading_space(whole) == (a - from) + leading_space(v@.subrange(a as int, to as int)),
            whole == v@.subrange(from as int, to as int),
        decreases to - a,
    {
        proof {
            let t = v@.subrange(a as int, to as int);
            assert(t[0] == v@[a as int]);
            assert(t.skip(1) =~= v@.subrange(a + 1, to as int));
        }
        a += 1;
    }
    proof {
        let t = v@.subrange(a as int, to as int);
        if a < to {
            assert(t[0] == v@[a as int]);
        }
        assert(trimmed_start(whole) =~= t);
    }
    let ghost front = v@.subrange(a as int, to as int);
    let mut b: usize = to;
    while b > a && whitespace(v[b - 1])
        invariant
            from <= a <= b <= to <= v.len(),
            front == v@.subrange(a as int, to as int),
            trailing_space(front) == (to - b) + trailing_space(v@.subrange(a as int, b as int)),
        decreases b - a,
    {
        proof {
            let t = v@.subrange(a as int, b as int);
            assert(t.last() == v@[b - 1]);
            assert(t.drop_last() =~= v@.subrange(a as int, b - 1));
        }
        b -= 1;
    }
    proof {
        let t = v@.subrange(a as int, b as int);
        if b > a {
            assert(t.last() == v@[b - 1]);
        }
        assert(trimmed_end(front) =~= t);
    }
    (a, b)
}

/// `s` without the white space at its start and at its end.
pub fn trim(s: &str) -> (r: String)
    ensures
        r@ == trimmed(s@),
{
    let v = to_chars(s);
    assert(v@.subrange(0, v.len() as int) =~= v@);
    let (a, b) = trim_bounds(&v, 0, v.len());
    from_chars_range(&v, a, b)
}

/// A line without the carriage return that ends it, if one does.
pub open spec fn without_cr(line: Seq<char>) -> Seq<char> {
    if line.len() > 0 && line.last() == '\r' {
        line.drop_last()
    } else {
        line
    }
}

/// The lines of a text. A line ends at a line feed, or at a carriage return
/// and a line feed; the last line needs no ending, and an ending at the very
/// end opens no further line.
pub open spec fn lines_of(s: Seq<char>) -> Seq<Seq<char>>
    decreases s.len(),
{
    if s.len() == 0 {
        Seq::empty()
    } else {
        let i = find_char(s, '\n');
        if 0 <= i < s.len() {
            seq![without_cr(s.take(i))] + lines_of(s.skip(i + 1))
        } else {
            seq![s]
        }
    }
}

/// The lines of `v[from..]`.
pub fn lines_from(v: &Vec<char>, from: usize) -> (found: Vec<String>)
    requires
        from <= v.len(),
    ensures
        views(found@) == lines_of(v@.skip(from as int)),
{
    let mut found: Vec<String> = Vec::new();
    let mut pos: usize = from;
    while pos < v.len()
        invariant
            from <= pos <= v.len(),
            lines_of(v@.skip(from as int)) == views(found@) + lines_of(v@.skip(pos as int)),
        decreases v.len() - pos,
    {
        let ghost rest = v@.skip(pos as int);
        let i = index_of_from(v, '\n', pos);
        proof {
            lemma_find_char(rest, '\n');
        }
        let ghost before = views(found@);
        if i < v.len() {
            let end = if i > pos && v[i - 1] == '\r' {
                i - 1
            } else {
                i
            };
            found.push(from_chars_range(v, pos, end));
            proof {
                let line = rest.take(i - pos);
                assert(v@.subrange(pos as int, i as int) =~= line);
                if i > pos {
                    assert(line.last() == v@[i - 1]);
                }
                assert(v@.subrange(pos as int, end as int) =~= without_cr(line));
                assert(rest.skip(i - pos + 1) =~= v@.skip(i + 1));
                assert(views(found@) =~= before + seq![without_cr(line)]);
            }
            pos = i + 1;
        } else {
            found.push(from_chars_range(v, pos, v.len()));
            proof {
                assert(v@.subrange(pos as int, v.len() as int) =~= rest);
                assert(views(found@) =~= before + seq![rest]);
                assert(v@.skip(v.len() as int) =~= Seq::<char>::empty());
            }
            pos = v.len();
        }
    }
    proof {
        assert(v@.skip(v.len() as int) =~= Seq::<char>::empty());
        assert(views(found@) + Seq::<Seq<char>>::empty() =~= views(found@));
    }
    found
}

/// The lines of a text.
pub fn lines(s: &str) -> (found: Vec<String>)
    ensures
        views(found@) == lines_of(s@),
{
    let v = to_chars(s);
    assert(v@.skip(0) =~= v@);
    lines_from(&v, 0)
}

// ---------------------------------------------------------------------------
// Letter case
// ---------------------------------------------------------------------------

/// An ASCII capital as its small letter; any other character as it is.
pub open spec fn ascii_lower(c: char) -> char {
    if 'A' <= c <= 'Z' {
        ((c as u8) + 32u8) as char
    } else {
        c
    }
}

/// Whether two texts are equal but for the case of their ASCII letters.
pub open spec fn same_ignoring_ascii_case(a: Seq<char>, b: Seq<char>) -> bool {
    a.len() == b.len() && forall|i: int|
        0 <= i < a.len() ==> ascii_lower(#[trigger] a[i]) == ascii_lower(b[i])
}

fn lower_ascii(c: char) -> (r: char)
    ensures
        r == ascii_lower(c),
{
    if c >= 'A' && c <= 'Z' {
        ((c as u8) + 32u8) as char
    } else {
        c
    }
}

/// Whether two texts are equal but for the case of their ASCII letters.
pub fn eq_ignore_ascii_case(a: &str, b: &str) -> (r: bool)
    ensures
        r == same_ignoring_ascii_case(a@, b@),
{
    let x = to_chars(a);
    let y = to_chars(b);
    if x.len() != y.len() {
        return false;
    }
    let mut i: usize = 0;
    while i < x.len()
        invariant
            i <= x.len(),
            x.len() == y.len(),
            x@ == a@,
            y@ == b@,
            forall|j: int| 0 <= j < i ==> ascii_lower(#[trigger] x@[j]) == ascii_lower(y@[j]),
        decreases x.len() - i,
    {
        if lower_ascii(x[i]) != lower_ascii(y[i]) {
            assert(ascii_lower(x@[i as int]) != ascii_lower(y@[i as int]));
            return false;
        }
        i += 1;
    }
    true
}

// ---------------------------------------------------------------------------
// Numbers as they are typed
// ---------------------------------------------------------------------------

/// The number that a text writes: digits, after an optional plus sign.
pub open spec fn written_number(s: Seq<char>) -> Option<nat> {
    let digits = if s.len() > 0 && s[0] == '+' {
        s.skip(1)
    } else {
        s
    };
    if all_digits(digits) {
        Some(decimal_value(digits))
    } else {
        None
    }
}

/// Reads a number as it is typed, where it fits 64 bits.
pub fn parse_unsigned(s: &str) -> (r: Option<u64>)
    ensures
        match r {
            Some(n) => written_number(s@) == Some(n as nat),
            None => written_number(s@) matches Some(n) ==> n > u64::MAX,
        },
{
    let v = to_chars(s);
    let digits = if v.len() > 0 && v[0] == '+' {
        from_chars_range(&v, 1, v.len())
    } else {
        from_chars_range(&v, 0, v.len())
    };
    proof {
        assert(v@.subrange(1, v.len() as int) =~= v@.skip(1));
        assert(v@.subrange(0, v.len() as int) =~= v@);
    }
    parse_decimal(digits.as_str())
}

/// Whether a text writes a number of at most `max`.
pub open spec fn writes_at_most(s: Seq<char>, max: nat) -> bool {
    written_number(s) matches Some(n) && n <= max
}

/// Reads a port number as it is typed.
pub fn parse_port(s: &str) -> (r: Option<u16>)
    ensures
        match r {
            Some(n) => written_number(s@) == Some(n as nat),
            None => !writes_at_most(s@, u16::MAX as nat),
        },
{
    match parse_unsigned(s) {
        Some(n) => {
            if n <= 65535 {
                Some(n as u16)
            } else {
                None
            }
        },
        None => None,
    }
}

/// Whether a text writes a number that fits 32 bits.
pub fn is_u32(s: &str) -> (r: bool)
    ensures
        r == writes_at_most(s@, u32::MAX as nat),
{
    match parse_unsigned(s) {
        Some(n) => n <= 4294967295,
        None => false,
    }
}

// ---------------------------------------------------------------------------
// Cutting at the ends
// ---------------------------------------------------------------------------

/// `s` without every leading repetition of `prefix`.
pub open spec fn without_leading(s: Seq<char>, prefix: Seq<char>) -> Seq<char>
    decreases s.len(),
{
    if prefix.len() > 0 && has_prefix(s, prefix) {
        without_leading(s.skip(prefix.len() as int), prefix)
    } else {
        s
    }
}

/// `s` without every leading repetition of `prefix`.
pub fn trim_start_matches(s: &str, prefix: &str) -> (r: String)
    ensures
        r@ == without_leading(s@, prefix@),
{
    let v = to_chars(s);
    let p = to_chars(prefix);
    let mut at: usize = 0;
    assert(v@.skip(0) =~= v@);
    if p.len() == 0 {
        return from_chars(&v);
    }
    while prefix_at(&v, at, &p)
        invariant
            at <= v.len(),
            p.len() > 0,
            p@ == prefix@,
            without_leading(v@, p@) == without_leading(v@.skip(at as int), p@),
        decreases v.len() - at,
    {
        proof {
            assert(v@.skip(at as int).skip(p.len() as int) =~= v@.skip(at + p.len()));
        }
        at += p.len();
    }
    proof {
        assert(v@.subrange(at as int, v.len() as int) =~= v@.skip(at as int));
    }
    from_chars_range(&v, at, v.len())
}

/// The number of times `c` stands at the start of `s`.
pub open spec fn leading_run(s: Seq<char>, c: char) -> nat
    decreases s.len(),
{
    if s.len() > 0 && s[0] == c {
        1 + leading_run(s.skip(1), c)
    } else {
        0
    }
}

/// The number of times `c` stands at the end of `s`.
pub open spec fn trailing_run(s: Seq<char>, c: char) -> nat
    decreases s.len(),
{
    if s.len() > 0 && s.last() == c {
        1 + trailing_run(s.drop_last(), c)
    } else {
        0
    }
}

/// `s` without the run of `c` at its start and the one at its end.
pub open spec fn without_char_around(s: Seq<char>, c: char) -> Seq<char> {
    let front = s.skip(leading_run(s, c) as int);
    front.take(front.len() - trailing_run(front, c))
}

/// `s` without the run of `c` at its start and the one at its end.
pub fn trim_matches(s: &str, c: char) -> (r: String)
    ensures
        r@ == without_char_around(s@, c),
{
    let v = to_chars(s);
    let mut a: usize = 0;
    assert(v@.skip(0) =~= v@);
    while a < v.len() && v[a] == c
        invariant
            a <= v.len(),
            leading_run(v@, c) == a + leading_run(v@.skip(a as int), c),
        decreases v.len() - a,
    {
        proof {
            let t = v@.skip(a as int);
            assert(t[0] == v@[a as int]);
            assert(t.skip(1) =~= v@.skip(a + 1));
        }
        a += 1;
    }
    proof {
        let t = v@.skip(a as int);
        if a < v.len() {
            assert(t[0] == v@[a as int]);
        }
    }
    let ghost front = v@.skip(a as int);
    let mut b: usize = v.len();
    assert(v@.subrange(a as int, b as int) =~= front);
    while b > a && v[b - 1] == c
        invariant
            a <= b <= v.len(),
            front == v@.skip(a as int),
            trailing_run(front, c) == (v.len() - b) + trailing_run(v@.subrange(a as int, b as int), c),
        decreases b - a,
    {
        proof {
            let t = v@.subrange(a as int, b as int);
            assert(t.last() == v@[b - 1]);
            assert(t.drop_last() =~= v@.subrange(a as int, b - 1));
        }
        b -= 1;
    }
    proof {
        let t = v@.subrange(a as int, b as int);
        if b > a {
            assert(t.last() == v@[b - 1]);
        }
        assert(t =~= front.take(front.len() - trailing_run(front, c)));
    }
    from_chars_range(&v, a, b)
}

/// The index of the last occurrence of `c` in `s`, or -1 when `c` does not
/// occur.
pub open spec fn find_last(s: Seq<char>, c: char) -> int
    decreases s.len(),
{
    if s.len() == 0 {
        -1
    } else if s.last() == c {
        s.len() - 1
    } else {
        find_last(s.drop_last(), c)
    }
}

/// The position of the last `c` in `v`, if there is one.
pub fn last_index_of(v: &Vec<char>, c: char) -> (r: Option<usize>)
    ensures
        match r {
            Some(i) => i == find_last(v@, c) && i < v.len(),
            None => find_last(v@, c) == -1,
        },
{
    let mut b: usize = v.len();
    assert(v@.take(b as int) =~= v@);
    while b > 0 && v[b - 1] != c
        invariant
            b <= v.len(),
            find_last(v@, c) == find_last(v@.take(b as int), c),
        decreases b,
    {
        proof {
            let t = v@.take(b as int);
            assert(t.last() == v@[b - 1]);
            assert(t.drop_last() =~= v@.take(b - 1));
        }
        b -= 1;
    }
    proof {
        let t = v@.take(b as int);
        if b > 0 {
            assert(t.last() == v@[b - 1]);
        }
    }
    if b > 0 {
        Some(b - 1)
    } else {
        None
    }
}

// ---------------------------------------------------------------------------
// Words and runs
// ---------------------------------------------------------------------------

/// The length of the longest start of `s` in which no character is white
/// space.
pub open spec fn word_length(s: Seq<char>) -> nat
    decreases s.len(),
{
    if s.len() > 0 && !is_whitespace(s[0]) {
        1 + word_length(s.skip(1))
    } else {
        0
    }
}

/// The words of a text: its longest runs without white space.
pub open spec fn words_of(s: Seq<char>) -> Seq<Seq<char>>
    decreases s.len(),
    via words_of_decreases
{
    let start = leading_space(s);
    if start >= s.len() {
        Seq::empty()
    } else {
        let rest = s.skip(start as int);
        let n = word_length(rest);
        if n == 0 {
            Seq::empty()
        } else {
            seq![rest.take(n as int)] + words_of(rest.skip(n as int))
        }
    }
}

#[via_fn]
proof fn words_of_decreases(s: Seq<char>) {
    lemma_space_bounds(s);
    let start = leading_space(s);
    if start < s.len() {
        let rest = s.skip(start as int);
        lemma_word_length(rest);
    }
}

pub proof fn lemma_word_length(s: Seq<char>)
    ensures
        word_length(s) <= s.len(),
        s.len() > 0 && !is_whitespace(s[0]) ==> word_length(s) > 0,
    decreases s.len(),
{
    if s.len() > 0 {
        lemma_word_length(s.skip(1));
    }
}

/// The words of a text.
pub fn words(s: &str) -> (found: Vec<String>)
    ensures
        views(found@) == words_of(s@),
{
    let v = to_chars(s);
    let mut found: Vec<String> = Vec::new();
    let mut pos: usize = 0;
    assert(v@.skip(0) =~= v@);
    loop
        invariant
            pos <= v.len(),
            words_of(v@) == views(found@) + words_of(v@.skip(pos as int)),
            v@ == s@,
        decreases v.len() - pos,
    {
        let ghost here = v@.skip(pos as int);
        let mut a: usize = pos;
        while a < v.len() && whitespace(v[a])
            invariant
                pos <= a <= v.len(),
                here == v@.skip(pos as int),
                leading_space(here) == (a - pos) + leading_space(v@.skip(a as int)),
            decreases v.len() - a,
        {
            proof {
                let t = v@.skip(a as int);
                assert(t[0] == v@[a as int]);
                assert(t.skip(1) =~= v@.skip(a + 1));
            }
            a += 1;
        }
        proof {
            let t = v@.skip(a as int);
            if a < v.len() {
                assert(t[0] == v@[a as int]);
            }
        }
        if a >= v.len() {
            proof {
                assert(views(found@) + Seq::<Seq<char>>::empty() =~= views(found@));
            }
            return found;
        }
        let ghost rest = v@.skip(a as int);
        proof {
            assert(here.skip(a - pos) =~= rest);
        }
        let mut b: usize = a;
        while b < v.len() && !whitespace(v[b])
            invariant
                a <= b <= v.len(),
                rest == v@.skip(a as int),
                word_length(rest) == (b - a) + word_length(v@.skip(b as int)),
            decreases v.len() - b,
        {
            proof {
                let t = v@.skip(b as int);
                assert(t[0] == v@[b as int]);
                assert(t.skip(1) =~= v@.skip(b + 1));
            }
            b += 1;
        }
        proof {
            let t = v@.skip(b as int);
            if b < v.len() {
                assert(t[0] == v@[b as int]);
            }
            assert(rest[0] == v@[a as int]);
            lemma_word_length(rest);
            assert(v@.subrange(a as int, b as int) =~= rest.take(b - a));
            assert(rest.skip(b - a) =~= v@.skip(b as int));
        }
        let ghost before = views(found@);
        found.push(from_chars_range(&v, a, b));
        proof {
            assert(views(found@) =~= before + seq![rest.take(b - a)]);
        }
        pos = b;
    }
}

/// The first run of characters of a kind in `s`: what stands from the first
/// character of the kind up to the first one after it that is not. With
/// `dots`, a dot continues a run that a digit began.
pub open spec fn first_run(s: Seq<char>, dots: bool) -> Seq<char>
    decreases s.len(),
{
    if s.len() == 0 {
        Seq::empty()
    } else if is_digit(s[0]) {
        s.take(run_length(s, dots) as int)
    } else {
        first_run(s.skip(1), dots)
    }
}

/// The length of the run of digits, or of digits and dots, at the start of
/// `s`.
pub open spec fn run_length(s: Seq<char>, dots: bool) -> nat
    decreases s.len(),
{
    if s.len() > 0 && (is_digit(s[0]) || (dots && s[0] == '.')) {
        1 + run_length(s.skip(1), dots)
    } else {
        0
    }
}

/// The first run of digits in `s`, or of digits and dots after a first
/// digit.
pub fn first_digits(s: &str, dots: bool) -> (r: String)
    ensures
        r@ == first_run(s@, dots),
{
    let v = to_chars(s);
    let mut a: usize = 0;
    assert(v@.skip(0) =~= v@);
    while a < v.len() && !(v[a] >= '0' && v[a] <= '9')
        invariant
            a <= v.len(),
            first_run(v@, dots) == first_run(v@.skip(a as int), dots),
        decreases v.len() - a,
    {
        proof {
            let t = v@.skip(a as int);
            assert(t[0] == v@[a as int]);
            assert(t.skip(1) =~= v@.skip(a + 1));
        }
        a += 1;
    }
    if a >= v.len() {
        return String::new();
    }
    let ghost rest = v@.skip(a as int);
    let mut b: usize = a;
    while b < v.len() && ((v[b] >= '0' && v[b] <= '9') || (dots && v[b] == '.'))
        invariant
            a <= b <= v.len(),
            rest == v@.skip(a as int),
            run_length(rest, dots) == (b - a) + run_length(v@.skip(b as int), dots),
        decreases v.len() - b,
    {
        proof {
            let t = v@.skip(b as int);
            assert(t[0] == v@[b as int]);
            assert(t.skip(1) =~= v@.skip(b + 1));
        }
        b += 1;
    }
    proof {
        let t = v@.skip(b as int);
        if b < v.len() {
            assert(t[0] == v@[b as int]);
        }
        assert(rest[0] == v@[a as int]);
        assert(v@.subrange(a as int, b as int) =~= rest.take(b - a));
    }
    from_chars_range(&v, a, b)
}

/// A list of texts, each a copy of one of the given ones.
pub fn owned(items: &Vec<&'static str>) -> (r: Vec<String>)
    ensures
        views(r@) == Seq::new(items@.len(), |i: int| items@[i]@),
{
    let mut r: Vec<String> = Vec::new();
    let mut i: usize = 0;
    while i < items.len()
        invariant
            i <= items.len(),
            r.len() == i,
            forall|j: int| 0 <= j < i ==> r@[j]@ == items@[j]@,
        decreases items.len() - i,
    {
        r.push(items[i].to_owned());
        i += 1;
    }
    assert(views(r@) =~= Seq::new(items@.len(), |i: int| items@[i]@));
    r
}

// ---------------------------------------------------------------------------
// Replacing
// ---------------------------------------------------------------------------

/// `s` with every occurrence of `from` turned into `to`, the occurrences
/// taken from the left and never overlapping.
pub open spec fn replaced_text(s: Seq<char>, from: Seq<char>, to: Seq<char>) -> Seq<char>
    decreases s.len(),
{
    if from.len() == 0 || s.len() == 0 {
        s
    } else if has_prefix(s, from) {
        to + replaced_text(s.skip(from.len() as int), from, to)
    } else {
        seq![s[0]] + replaced_text(s.skip(1), from, to)
    }
}

/// Turns every occurrence of `from` in `s` into `to`. An empty `from`
/// occurs nowhere.
pub fn replace_text(s: &str, from: &str, to: &str) -> (r: String)
    ensures
        r@ == replaced_text(s@, from@, to@),
{
    let v = to_chars(s);
    let f = to_chars(from);
    if f.len() == 0 {
        return from_chars(&v);
    }
    let mut r = String::new();
    let mut pos: usize = 0;
    assert(v@.skip(0) =~= v@);
    while pos < v.len()
        invariant
            pos <= v.len(),
            f.len() > 0,
            f@ == from@,
            replaced_text(v@, from@, to@) == r@ + replaced_text(v@.skip(pos as int), from@, to@),
        decreases v.len() - pos,
    {
        let ghost rest = v@.skip(pos as int);
        if prefix_at(&v, pos, &f) {
            r.append(to);
            proof {
                assert(rest.skip(f.len() as int) =~= v@.skip(pos + f.len()));
            }
            pos += f.len();
        } else {
            r.push(v[pos]);
            proof {
                assert(rest[0] == v@[pos as int]);
                assert(rest.skip(1) =~= v@.skip(pos + 1));
            }
            pos += 1;
        }
    }
    proof {
        assert(v@.skip(v.len() as int) =~= Seq::<char>::empty());
    }
    r
}

} // verus!
