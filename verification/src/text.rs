//! Character-level helpers for the strings the client handles.
//!
//! Every function here is stated over the sequence of characters of its
//! arguments; the executable versions walk a `Vec<char>` copy of the text and
//! cut their results out of the text they were given.

use vstd::prelude::*;

verus! {

/// `pat` stands in `s` at position `i`.
pub open spec fn occurs_at(s: Seq<char>, pat: Seq<char>, i: int) -> bool {
    0 <= i && i + pat.len() <= s.len() && s.subrange(i, i + pat.len()) == pat
}

/// `s` begins with `pat`.
pub open spec fn has_prefix(s: Seq<char>, pat: Seq<char>) -> bool {
    occurs_at(s, pat, 0)
}

/// `pat` stands somewhere in `s`.
pub open spec fn contains(s: Seq<char>, pat: Seq<char>) -> bool {
    exists|i: int| occurs_at(s, pat, i)
}

/// No occurrence of `pat` in `s` starts in `lo..hi`.
pub open spec fn absent_between(s: Seq<char>, pat: Seq<char>, lo: int, hi: int) -> bool {
    forall|j: int| lo <= j < hi ==> !occurs_at(s, pat, j)
}

/// The position of the first occurrence of `pat` in `s` at or after `from`.
pub open spec fn first_occurrence(s: Seq<char>, pat: Seq<char>, from: int) -> Option<int>
    decreases s.len() + 1 - from,
{
    if from < 0 || from + pat.len() > s.len() {
        None
    } else if occurs_at(s, pat, from) {
        Some(from)
    } else {
        first_occurrence(s, pat, from + 1)
    }
}

/// What `first_occurrence` finds is an occurrence, and the earliest one.
pub proof fn lemma_first_occurrence(s: Seq<char>, pat: Seq<char>, from: int)
    requires
        0 <= from,
    ensures
        match first_occurrence(s, pat, from) {
            Some(i) => from <= i && occurs_at(s, pat, i) && absent_between(s, pat, from, i),
            None => absent_between(s, pat, from, s.len() as int + 1),
        },
    decreases s.len() + 1 - from,
{
    if from + pat.len() > s.len() {
    } else if occurs_at(s, pat, from) {
    } else {
        lemma_first_occurrence(s, pat, from + 1);
    }
}

/// `s` with every occurrence of `from` replaced by `to`, scanning from
/// position `i` left to right; a match consumes the characters it covers.
pub open spec fn replace_from(s: Seq<char>, from: Seq<char>, to: Seq<char>, i: int) -> Seq<char>
    decreases s.len() - i,
{
    if i < 0 || i >= s.len() || from.len() == 0 {
        Seq::empty()
    } else if occurs_at(s, from, i) {
        to + replace_from(s, from, to, i + from.len())
    } else {
        seq![s[i]] + replace_from(s, from, to, i + 1)
    }
}

/// `s` with all non-overlapping occurrences of the non-empty pattern `from`
/// replaced by `to`, leftmost first.
pub open spec fn replace_all(s: Seq<char>, from: Seq<char>, to: Seq<char>) -> Seq<char> {
    replace_from(s, from, to, 0)
}

/// The characters Unicode classes as white space.
pub open spec fn is_space(c: char) -> bool {
    let n = c as u32;
    (0x09 <= n <= 0x0D) || n == 0x20 || n == 0x85 || n == 0xA0 || n == 0x1680 || (0x2000 <= n
        <= 0x200A) || n == 0x2028 || n == 0x2029 || n == 0x202F || n == 0x205F || n == 0x3000
}

/// A class of characters that can be cut off the ends of a text.
#[derive(Debug, Clone, Copy, PartialEq, Eq)]
pub enum CharClass {
    /// White space.
    Space,
    /// The single and the double quote.
    Quote,
    /// The slash.
    Slash,
}

/// Whether `c` belongs to the class.
pub open spec fn in_class(c: char, class: CharClass) -> bool {
    match class {
        CharClass::Space => is_space(c),
        CharClass::Quote => c == '\'' || c == '"',
        CharClass::Slash => c == '/',
    }
}

/// The first position at or after `i` that holds no character of the class.
pub open spec fn skip_class(s: Seq<char>, class: CharClass, i: int) -> int
    decreases s.len() - i,
{
    if 0 <= i < s.len() && in_class(s[i], class) {
        skip_class(s, class, i + 1)
    } else {
        i
    }
}

/// The end of `s[lo..j]` once the characters of the class at its end are
/// cut off.
pub open spec fn drop_trailing_class(s: Seq<char>, class: CharClass, lo: int, j: int) -> int
    decreases j - lo,
{
    if lo < j <= s.len() && in_class(s[j - 1], class) {
        drop_trailing_class(s, class, lo, j - 1)
    } else {
        j
    }
}

/// The bounds of `s` without the characters of the class at its beginning
/// and at its end.
pub open spec fn trim_bounds(s: Seq<char>, class: CharClass) -> (int, int) {
    let a = skip_class(s, class, 0);
    (a, drop_trailing_class(s, class, a, s.len() as int))
}

/// `s` without the characters of the class at its beginning and at its end.
pub open spec fn trimmed_of(s: Seq<char>, class: CharClass) -> Seq<char> {
    s.subrange(trim_bounds(s, class).0, trim_bounds(s, class).1)
}

/// `s` without the characters of the class at its end.
pub open spec fn end_trimmed_of(s: Seq<char>, class: CharClass) -> Seq<char> {
    s.subrange(0, drop_trailing_class(s, class, 0, s.len() as int))
}

/// `s` without leading and trailing white space.
pub open spec fn trimmed(s: Seq<char>) -> Seq<char> {
    trimmed_of(s, CharClass::Space)
}

/// `s` without every copy of `prefix` that it begins with.
pub open spec fn without_prefixes(s: Seq<char>, prefix: Seq<char>) -> Seq<char>
    decreases s.len(),
{
    if prefix.len() > 0 && has_prefix(s, prefix) {
        without_prefixes(s.skip(prefix.len() as int), prefix)
    } else {
        s
    }
}

/// The characters of `s`, in order.
pub fn chars_of(s: &str) -> (out: Vec<char>)
    ensures
        out@ == s@,
{
    let mut out: Vec<char> = Vec::new();
    let chars = s.chars();
    for c in it: chars
        invariant
            it.seq() == s@,
            out@ =~= s@.take(it.index()),
    {
        out.push(c);
    }
    assert(out@ =~= s@);
    out
}

/// Whether `c` is white space.
pub fn char_is_space(c: char) -> (r: bool)
    ensures
        r == is_space(c),
{
    let n: u32 = c as u32;
    (0x09 <= n && n <= 0x0D) || n == 0x20 || n == 0x85 || n == 0xA0 || n == 0x1680 || (0x2000
        <= n && n <= 0x200A) || n == 0x2028 || n == 0x2029 || n == 0x202F || n == 0x205F || n
        == 0x3000
}

/// Whether `pat` stands in `s` at position `i`.
pub fn matches_at(s: &Vec<char>, pat: &Vec<char>, i: usize) -> (r: bool)
    ensures
        r == occurs_at(s@, pat@, i as int),
{
    if pat.len() > s.len() || i > s.len() - pat.len() {
        return false;
    }
    let mut k: usize = 0;
    while k < pat.len()
        invariant
            k <= pat.len(),
            i + pat.len() <= s.len(),
            forall|j: int| 0 <= j < k ==> s@[i + j] == pat@[j],
        decreases pat.len() - k,
    {
        if s[i + k] != pat[k] {
            assert(s@.subrange(i as int, i + pat.len())[k as int] != pat@[k as int]);
            return false;
        }
        k += 1;
    }
    assert(s@.subrange(i as int, i + pat.len()) =~= pat@);
    true
}

/// The position of the first occurrence of `pat` in `s` at or after `from`.
pub fn find_from(s: &Vec<char>, pat: &Vec<char>, from: usize) -> (r: Option<usize>)
    ensures
        match r {
            Some(i) => first_occurrence(s@, pat@, from as int) == Some(i as int),
            None => first_occurrence(s@, pat@, from as int) is None,
        },
{
    let n: usize = s.len();
    if from > n {
        return None;
    }
    let mut i: usize = from;
    while i < n
        invariant
            from <= i <= n,
            n == s.len(),
            first_occurrence(s@, pat@, from as int) == first_occurrence(s@, pat@, i as int),
        decreases n - i,
    {
        if matches_at(s, pat, i) {
            return Some(i);
        }
        i += 1;
    }
    proof {
        if pat@.len() == 0 {
            assert(s@.subrange(n as int, n as int) =~= pat@);
        }
    }
    if pat.len() == 0 {
        Some(n)
    } else {
        None
    }
}

/// Whether the two strings hold the same characters.
pub fn str_eq(a: &str, b: &str) -> (r: bool)
    ensures
        r == (a@ == b@),
{
    let av = chars_of(a);
    let bv = chars_of(b);
    if av.len() != bv.len() {
        return false;
    }
    let r = matches_at(&av, &bv, 0);
    assert(av@.subrange(0, av@.len() as int) =~= av@);
    r
}

/// Whether `s` begins with `pat`.
pub fn starts_with(s: &str, pat: &str) -> (r: bool)
    ensures
        r == has_prefix(s@, pat@),
{
    let sv = chars_of(s);
    let pv = chars_of(pat);
    matches_at(&sv, &pv, 0)
}

/// Whether `pat` stands somewhere in `s`.
pub fn str_contains(s: &str, pat: &str) -> (r: bool)
    ensures
        r == contains(s@, pat@),
{
    let sv = chars_of(s);
    let pv = chars_of(pat);
    let found = find_from(&sv, &pv, 0);
    proof {
        lemma_first_occurrence(sv@, pv@, 0);
        if found is None {
            assert forall|i: int| !occurs_at(sv@, pv@, i) by {
                if 0 <= i && i < sv@.len() + 1 {
                    assert(absent_between(sv@, pv@, 0, sv@.len() as int + 1));
                }
            }
        }
    }
    found.is_some()
}

/// `s` with every occurrence of the non-empty `from` replaced by `to`.
pub fn replace(s: &str, from: &str, to: &str) -> (out: String)
    requires
        from@.len() > 0,
    ensures
        out@ == replace_all(s@, from@, to@),
{
    let sv = chars_of(s);
    let fv = chars_of(from);
    let n: usize = sv.len();
    let mut out = String::new();
    let mut start: usize = 0;
    let mut i: usize = 0;
    while i < n
        invariant
            sv@ == s@,
            fv@ == from@,
            fv@.len() > 0,
            n == sv.len(),
            start <= i <= n,
            out@ + s@.subrange(start as int, i as int) + replace_from(s@, from@, to@, i as int)
                =~= replace_all(s@, from@, to@),
        decreases n - i,
    {
        if matches_at(&sv, &fv, i) {
            let ghost before = out@;
            out.append(s.substring_char(start, i));
            out.append(to);
            proof {
                assert(out@ =~= before + s@.subrange(start as int, i as int) + to@);
                let next = i + fv@.len();
                assert(s@.subrange(next, next) =~= Seq::<char>::empty());
            }
            i = i + fv.len();
            start = i;
        } else {
            proof {
                assert(s@.subrange(start as int, i + 1) =~= s@.subrange(start as int, i as int)
                    + seq![s@[i as int]]);
            }
            i += 1;
        }
    }
    let ghost before = out@;
    out.append(s.substring_char(start, n));
    assert(out@ =~= before + s@.subrange(start as int, n as int));
    out
}

/// Whether `c` belongs to the class.
pub fn char_in_class(c: char, class: CharClass) -> (r: bool)
    ensures
        r == in_class(c, class),
{
    match class {
        CharClass::Space => char_is_space(c),
        CharClass::Quote => c == '\'' || c == '"',
        CharClass::Slash => c == '/',
    }
}

/// The bounds of `s` without the characters of the class at its beginning
/// and at its end.
pub fn trim_range(s: &Vec<char>, class: CharClass) -> (r: (usize, usize))
    ensures
        r.0 <= r.1 <= s.len(),
        (r.0 as int, r.1 as int) == trim_bounds(s@, class),
{
    let mut a: usize = 0;
    while a < s.len() && char_in_class(s[a], class)
        invariant
            a <= s.len(),
            skip_class(s@, class, 0) == skip_class(s@, class, a as int),
        decreases s.len() - a,
    {
        a += 1;
    }
    let b = trim_end_from(s, class, a);
    (a, b)
}

/// The end of `s[lo..]` once the characters of the class at its end are cut
/// off.
pub fn trim_end_from(s: &Vec<char>, class: CharClass, lo: usize) -> (b: usize)
    requires
        lo <= s.len(),
    ensures
        lo <= b <= s.len(),
        b == drop_trailing_class(s@, class, lo as int, s.len() as int),
{
    let mut b: usize = s.len();
    while b > lo && char_in_class(s[b - 1], class)
        invariant
            lo <= b <= s.len(),
            drop_trailing_class(s@, class, lo as int, s.len() as int) == drop_trailing_class(
                s@,
                class,
                lo as int,
                b as int,
            ),
        decreases b - lo,
    {
        b -= 1;
    }
    b
}

/// `s` without the characters of the class at its beginning and at its end.
pub fn trim_class(s: &str, class: CharClass) -> (r: &str)
    ensures
        r@ == trimmed_of(s@, class),
{
    let sv = chars_of(s);
    let (a, b) = trim_range(&sv, class);
    s.substring_char(a, b)
}

/// `s` without the characters of the class at its end.
pub fn trim_end_class(s: &str, class: CharClass) -> (r: &str)
    ensures
        r@ == end_trimmed_of(s@, class),
{
    let sv = chars_of(s);
    let b = trim_end_from(&sv, class, 0);
    s.substring_char(0, b)
}

/// `s` without leading and trailing white space.
pub fn trim(s: &str) -> (r: &str)
    ensures
        r@ == trimmed(s@),
{
    trim_class(s, CharClass::Space)
}

/// `s` without every copy of `prefix` that it begins with.
pub fn strip_prefixes<'a>(s: &'a str, prefix: &str) -> (r: &'a str)
    ensures
        r@ == without_prefixes(s@, prefix@),
{
    let sv = chars_of(s);
    let pv = chars_of(prefix);
    let n: usize = sv.len();
    if pv.len() == 0 {
        return s;
    }
    let mut start: usize = 0;
    assert(s@.skip(0) =~= s@);
    while matches_at(&sv, &pv, start)
        invariant
            start <= n,
            n == sv.len(),
            sv@ == s@,
            pv@ == prefix@,
            pv@.len() > 0,
            without_prefixes(s@, prefix@) == without_prefixes(s@.skip(start as int), prefix@),
        decreases n - start,
    {
        proof {
            let rest = s@.skip(start as int);
            assert(rest.subrange(0, pv@.len() as int) =~= s@.subrange(
                start as int,
                start + pv@.len(),
            ));
            assert(rest.skip(pv@.len() as int) =~= s@.skip(start + pv@.len()));
        }
        start = start + pv.len();
    }
    proof {
        let rest = s@.skip(start as int);
        if start + pv@.len() <= n {
            assert(rest.subrange(0, pv@.len() as int) =~= s@.subrange(
                start as int,
                start + pv@.len(),
            ));
        }
        assert(s@.subrange(start as int, n as int) =~= rest);
    }
    s.substring_char(start, n)
}

/// The pieces of `s` between occurrences of `sep`, scanning from position `i`
/// with the current piece begun at `start`.
pub open spec fn split_from(s: Seq<char>, sep: char, start: int, i: int) -> Seq<Seq<char>>
    decreases s.len() - i,
{
    if i < 0 || i >= s.len() {
        seq![s.subrange(start, s.len() as int)]
    } else if s[i] == sep {
        seq![s.subrange(start, i)] + split_from(s, sep, i + 1, i + 1)
    } else {
        split_from(s, sep, start, i + 1)
    }
}

/// The pieces of `s` between occurrences of `sep`; there is always at least
/// one piece, and a piece may be empty.
pub open spec fn split(s: Seq<char>, sep: char) -> Seq<Seq<char>> {
    split_from(s, sep, 0, 0)
}

/// The character sequences of a list of string slices.
pub open spec fn slice_views(v: Seq<&str>) -> Seq<Seq<char>> {
    v.map_values(|p: &str| p@)
}

/// The characters of a string that may be missing.
pub open spec fn optional_view(s: Option<String>) -> Option<Seq<char>> {
    match s {
        Some(s) => Some(s@),
        None => None,
    }
}

/// The character sequences of a list of strings.
pub open spec fn string_views(v: Seq<String>) -> Seq<Seq<char>> {
    v.map_values(|p: String| p@)
}

/// The characters of a list of pairs of strings.
pub open spec fn pair_views(entries: Seq<(String, String)>) -> Seq<(Seq<char>, Seq<char>)> {
    entries.map_values(|e: (String, String)| (e.0@, e.1@))
}

/// The pieces of `s` between occurrences of `sep`.
pub fn split_char<'a>(s: &'a str, sep: char) -> (out: Vec<&'a str>)
    ensures
        slice_views(out@) == split(s@, sep),
{
    let sv = chars_of(s);
    let n: usize = sv.len();
    let mut out: Vec<&'a str> = Vec::new();
    let mut start: usize = 0;
    let mut i: usize = 0;
    while i < n
        invariant
            sv@ == s@,
            n == sv.len(),
            start <= i <= n,
            slice_views(out@) + split_from(s@, sep, start as int, i as int) =~= split(s@, sep),
        decreases n - i,
    {
        if sv[i] == sep {
            let piece = s.substring_char(start, i);
            let ghost before = out@;
            out.push(piece);
            assert(slice_views(out@) =~= slice_views(before) + seq![piece@]);
            start = i + 1;
        }
        i += 1;
    }
    let piece = s.substring_char(start, n);
    let ghost before = out@;
    out.push(piece);
    assert(slice_views(out@) =~= slice_views(before) + seq![piece@]);
    out
}

/// The decimal digit for a value below ten.
pub open spec fn digit_char(d: nat) -> char {
    if d == 0 {
        '0'
    } else if d == 1 {
        '1'
    } else if d == 2 {
        '2'
    } else if d == 3 {
        '3'
    } else if d == 4 {
        '4'
    } else if d == 5 {
        '5'
    } else if d == 6 {
        '6'
    } else if d == 7 {
        '7'
    } else if d == 8 {
        '8'
    } else {
        '9'
    }
}

/// The decimal notation of `n`, without sign or leading zeros.
pub open spec fn decimal(n: nat) -> Seq<char>
    decreases n,
{
    if n < 10 {
        seq![digit_char(n)]
    } else {
        decimal(n / 10).push(digit_char(n % 10))
    }
}

fn digit_str(d: u64) -> (r: &'static str)
    requires
        d < 10,
    ensures
        r@ == seq![digit_char(d as nat)],
{
    proof {
        reveal_strlit("0");
        reveal_strlit("1");
        reveal_strlit("2");
        reveal_strlit("3");
        reveal_strlit("4");
        reveal_strlit("5");
        reveal_strlit("6");
        reveal_strlit("7");
        reveal_strlit("8");
        reveal_strlit("9");
    }
    let r = if d == 0 {
        "0"
    } else if d == 1 {
        "1"
    } else if d == 2 {
        "2"
    } else if d == 3 {
        "3"
    } else if d == 4 {
        "4"
    } else if d == 5 {
        "5"
    } else if d == 6 {
        "6"
    } else if d == 7 {
        "7"
    } else if d == 8 {
        "8"
    } else {
        "9"
    };
    assert(r@ =~= seq![digit_char(d as nat)]);
    r
}

/// Appends the decimal notation of `n` to `out`.
pub fn push_decimal(out: &mut String, n: u64)
    ensures
        final(out)@ == old(out)@ + decimal(n as nat),
    decreases n,
{
    if n >= 10 {
        push_decimal(out, n / 10);
    }
    let ghost before = out@;
    out.append(digit_str(n % 10));
    assert(out@ =~= old(out)@ + decimal(n as nat));
}

/// The decimal notation of `n`.
pub fn decimal_string(n: u64) -> (out: String)
    ensures
        out@ == decimal(n as nat),
{
    let mut out = String::new();
    push_decimal(&mut out, n);
    assert(out@ =~= decimal(n as nat));
    out
}

/// The value of a decimal digit.
pub open spec fn digit_value(c: char) -> Option<nat> {
    let n = c as u32;
    if 0x30 <= n <= 0x39 {
        Some((n - 0x30) as nat)
    } else {
        None
    }
}

/// The value of a run of decimal digits; the empty run counts as zero.
pub open spec fn digits_value(s: Seq<char>) -> Option<nat>
    decreases s.len(),
{
    if s.len() == 0 {
        Some(0)
    } else {
        match (digits_value(s.drop_last()), digit_value(s.last())) {
            (Some(high), Some(d)) => Some(10 * high + d),
            _ => None,
        }
    }
}

/// What parsing `s` as an unsigned number no greater than `max` gives: one
/// optional `+`, then at least one decimal digit and nothing else.
pub open spec fn parse_unsigned(s: Seq<char>, max: nat) -> Option<nat> {
    let body = if s.len() > 0 && s[0] == '+' {
        s.skip(1)
    } else {
        s
    };
    if body.len() == 0 {
        None
    } else {
        match digits_value(body) {
            Some(v) => if v <= max {
                Some(v)
            } else {
                None
            },
            None => None,
        }
    }
}

/// A run of digits is worth at least as much as each of its beginnings, and
/// has no value where a beginning has none.
pub proof fn lemma_digits_value_grows(s: Seq<char>, k: int)
    requires
        0 <= k <= s.len(),
    ensures
        digits_value(s.take(k)) is None ==> digits_value(s) is None,
        digits_value(s) matches Some(v) ==> digits_value(s.take(k)).unwrap() <= v,
    decreases s.len(),
{
    if k == s.len() {
        assert(s.take(k) =~= s);
    } else {
        assert(s.drop_last().take(k) =~= s.take(k));
        lemma_digits_value_grows(s.drop_last(), k);
    }
}

/// Parses `s` as an unsigned decimal number no greater than `max`.
pub fn parse_number(s: &str, max: u64) -> (r: Option<u64>)
    ensures
        match r {
            Some(v) => parse_unsigned(s@, max as nat) == Some(v as nat),
            None => parse_unsigned(s@, max as nat) is None,
        },
{
    let sv = chars_of(s);
    let n: usize = sv.len();
    let lo: usize = if n > 0 && sv[0] == '+' {
        1
    } else {
        0
    };
    if lo == n {
        return None;
    }
    let ghost body = sv@.skip(lo as int);
    assert(sv@.skip(0) =~= sv@);
    assert(body.take(0) =~= Seq::<char>::empty());
    let mut acc: u64 = 0;
    let mut i: usize = lo;
    while i < n
        invariant
            lo <= i <= n,
            n == sv.len(),
            body == sv@.skip(lo as int),
            body == if s@.len() > 0 && s@[0] == '+' {
                s@.skip(1)
            } else {
                s@
            },
            body.len() > 0,
            acc <= max,
            digits_value(body.take(i - lo)) == Some(acc as nat),
        decreases n - i,
    {
        let c: u32 = sv[i] as u32;
        proof {
            assert(body.take(i + 1 - lo).drop_last() =~= body.take(i - lo));
            assert(body.take(i + 1 - lo).last() == sv@[i as int]);
            lemma_digits_value_grows(body, i + 1 - lo);
        }
        if c < 0x30 || c > 0x39 {
            return None;
        }
        let d: u64 = (c - 0x30) as u64;
        if d > max || acc > (max - d) / 10 {
            assert(10 * acc + d > max) by (nonlinear_arith)
                requires
                    d > max || acc > (max - d) / 10,
                    0 <= acc,
            ;
            return None;
        }
        assert(10 * acc + d <= max) by (nonlinear_arith)
            requires
                acc <= (max - d) / 10,
                d <= max,
        ;
        acc = 10 * acc + d;
        i += 1;
    }
    assert(body.take(n - lo) =~= body);
    Some(acc)
}

/// The members of `parts` written one after the other with `sep` between
/// neighbours.
pub open spec fn joined(parts: Seq<Seq<char>>, sep: Seq<char>) -> Seq<char>
    decreases parts.len(),
{
    if parts.len() == 0 {
        Seq::empty()
    } else if parts.len() == 1 {
        parts[0]
    } else {
        joined(parts.drop_last(), sep) + sep + parts.last()
    }
}

/// The members of `parts` written one after the other with `sep` between
/// neighbours.
pub fn join(parts: &Vec<String>, sep: &str) -> (out: String)
    ensures
        out@ == joined(string_views(parts@), sep@),
{
    let mut out = String::new();
    let mut i: usize = 0;
    while i < parts.len()
        invariant
            i <= parts.len(),
            out@ == joined(string_views(parts@).take(i as int), sep@),
        decreases parts.len() - i,
    {
        let ghost before = out@;
        if i > 0 {
            out.append(sep);
        }
        out.append(parts[i].as_str());
        proof {
            let all = string_views(parts@);
            assert(all.take(i + 1).drop_last() =~= all.take(i as int));
            assert(all.take(i + 1).last() == parts@[i as int]@);
            if i == 0 {
                assert(out@ =~= parts@[0]@);
            } else {
                assert(out@ =~= before + sep@ + parts@[i as int]@);
            }
        }
        i += 1;
    }
    assert(string_views(parts@).take(parts@.len() as int) =~= string_views(parts@));
    out
}

/// The lower-case form of a text, as `str::to_lowercase` gives it by the
/// rules of Unicode.
pub uninterp spec fn lowercase(s: Seq<char>) -> Seq<char>;

/// `str::to_lowercase`: the lower-case form of `s`.
#[verifier::external_body]
pub(crate) fn to_lowercase(s: &str) -> (r: String)
    ensures
        r@ == lowercase(s@),
{
    s.to_lowercase()
}

/// `String::push`: `c` appended to `s`.
#[verifier::external_body]
pub(crate) fn push_char(s: &mut String, c: char)
    ensures
        final(s)@ == old(s)@.push(c),
{
    s.push(c)
}

/// `String::pop`: the last character taken off `s` and handed back, or
/// nothing where `s` is empty.
#[verifier::external_body]
pub(crate) fn pop_char(s: &mut String) -> (r: Option<char>)
    ensures
        match r {
            Some(c) => old(s)@.len() > 0 && c == old(s)@.last() && final(s)@ == old(s)@.drop_last(),
            None => old(s)@.len() == 0 && final(s)@ == old(s)@,
        },
{
    s.pop()
}

} // verus!
