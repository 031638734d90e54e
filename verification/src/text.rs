//! String primitives shared by the parsers and the resolver.

use vstd::prelude::*;
use vstd::string::*;
use vstd::utf8::*;

verus! {

/// Whether two string slices hold the same characters.
pub fn str_eq(a: &str, b: &str) -> (same: bool)
    ensures
        same == (a@ == b@),
{
    let x = a.as_bytes();
    let y = b.as_bytes();
    proof {
        encode_utf8_decode_utf8(a@);
        encode_utf8_decode_utf8(b@);
    }
    if x.len() != y.len() {
        return false;
    }
    let mut i: usize = 0;
    while i < x.len()
        invariant
            i <= x.len(),
            x.len() == y.len(),
            x@ == a.spec_bytes(),
            y@ == b.spec_bytes(),
            forall|j: int| 0 <= j < i ==> x@[j] == y@[j],
        decreases x.len() - i,
    {
        if x[i] != y[i] {
            return false;
        }
        i += 1;
    }
    assert(x@ =~= y@);
    true
}

/// Whether `s` begins with the characters of `prefix`.
pub open spec fn has_prefix(s: Seq<char>, prefix: Seq<char>) -> bool {
    prefix.len() <= s.len() && s.subrange(0, prefix.len() as int) == prefix
}

/// Whether `s` ends with the characters of `suffix`.
pub open spec fn has_suffix(s: Seq<char>, suffix: Seq<char>) -> bool {
    suffix.len() <= s.len() && s.subrange(s.len() - suffix.len(), s.len() as int) == suffix
}

/// Tests whether `s` begins with `prefix`.
pub fn starts_with(s: &str, prefix: &str) -> (found: bool)
    ensures
        found == has_prefix(s@, prefix@),
{
    let n = prefix.unicode_len();
    if s.unicode_len() < n {
        return false;
    }
    str_eq(s.substring_char(0, n), prefix)
}

/// `s` with every occurrence of `pattern` replaced by `with`, occurrences
/// taken from the left and never overlapping. An empty pattern occurs nowhere.
pub open spec fn replace_all(s: Seq<char>, pattern: Seq<char>, with: Seq<char>) -> Seq<char>
    decreases s.len(),
{
    if s.len() == 0 || pattern.len() == 0 {
        s
    } else if has_prefix(s, pattern) {
        with + replace_all(s.skip(pattern.len() as int), pattern, with)
    } else {
        seq![s[0]] + replace_all(s.skip(1), pattern, with)
    }
}

/// Replaces every occurrence of `pattern` in `s` by `with`.
pub fn replace(s: &str, pattern: &str, with: &str) -> (out: String)
    ensures
        out@ == replace_all(s@, pattern@, with@),
{
    let n = s.unicode_len();
    let m = pattern.unicode_len();
    if m == 0 {
        return s.to_owned();
    }
    let mut out = String::new();
    let mut i: usize = 0;
    assert(s@.skip(0) =~= s@);
    assert(out@ + replace_all(s@, pattern@, with@) =~= replace_all(s@, pattern@, with@));
    while i < n
        invariant
            i <= n,
            n == s@.len(),
            m == pattern@.len(),
            m > 0,
            out@ + replace_all(s@.skip(i as int), pattern@, with@) == replace_all(
                s@,
                pattern@,
                with@,
            ),
        decreases n - i,
    {
        let ghost rest = s@.skip(i as int);
        let ghost before = out@;
        if n - i >= m && str_eq(s.substring_char(i, i + m), pattern) {
            assert(rest.subrange(0, m as int) =~= s@.subrange(i as int, i + m));
            assert(rest.skip(m as int) =~= s@.skip(i + m));
            out.append(with);
            i += m;
            assert(out@ + replace_all(s@.skip(i as int), pattern@, with@) =~= before + (with@
                + replace_all(rest.skip(m as int), pattern@, with@)));
        } else {
            if n - i >= m {
                assert(rest.subrange(0, m as int) =~= s@.subrange(i as int, i + m));
            }
            assert(rest.skip(1) =~= s@.skip(i + 1));
            assert(s@.subrange(i as int, i + 1) =~= seq![rest[0]]);
            out.append(s.substring_char(i, i + 1));
            i += 1;
            assert(out@ + replace_all(s@.skip(i as int), pattern@, with@) =~= before + (seq![
                rest[0],
            ] + replace_all(rest.skip(1), pattern@, with@)));
        }
    }
    assert(s@.skip(n as int) =~= Seq::<char>::empty());
    assert(out@ + Seq::<char>::empty() =~= out@);
    out
}

/// The first position at or after `from` at which `s` holds `c`, or the
/// length of `s` when there is none.
pub open spec fn find_from(s: Seq<char>, c: char, from: int) -> int
    decreases s.len() - from,
{
    if from < 0 || from >= s.len() {
        s.len() as int
    } else if s[from] == c {
        from
    } else {
        find_from(s, c, from + 1)
    }
}

/// Finds the first `c` in `s` at or after the character position `from`.
pub fn find_char(s: &str, c: char, from: usize) -> (at: usize)
    ensures
        at == find_from(s@, c, from as int),
        at <= s@.len(),
        from <= s@.len() ==> from <= at,
        at < s@.len() ==> s@[at as int] == c,
{
    let n = s.unicode_len();
    let mut i: usize = from;
    while i < n
        invariant
            n == s@.len(),
            from <= i,
            find_from(s@, c, i as int) == find_from(s@, c, from as int),
        decreases n - i,
    {
        if s.get_char(i) == c {
            return i;
        }
        i += 1;
    }
    n
}

/// A copy of a list of strings.
pub fn clone_strings(list: &Vec<String>) -> (copy: Vec<String>)
    ensures
        copy.deep_view() == list.deep_view(),
{
    let mut copy: Vec<String> = Vec::new();
    let mut i: usize = 0;
    while i < list.len()
        invariant
            i <= list.len(),
            copy.len() == i,
            forall|j: int| 0 <= j < i ==> copy[j]@ == list[j]@,
        decreases list.len() - i,
    {
        copy.push(list[i].clone());
        i += 1;
    }
    assert(copy.deep_view() =~= list.deep_view());
    copy
}

/// A copy of a string that may be absent.
pub fn clone_optional(text: &Option<String>) -> (copy: Option<String>)
    ensures
        copy.deep_view() == text.deep_view(),
{
    match text {
        Some(s) => Some(s.clone()),
        None => None,
    }
}

/// The character that writes the decimal digit `d`.
pub open spec fn digit_char(d: int) -> char {
    if d == 0 {
        '0'
    } else if d == 1 {
        '1'
    } else if d == 2 {
        '2'
    } else if d == 3 {
        '3'
    } else if d == 4 {
        '4'
    } else if d == 5 {
        '5'
    } else if d == 6 {
        '6'
    } else if d == 7 {
        '7'
    } else if d == 8 {
        '8'
    } else {
        '9'
    }
}

/// The decimal digits of `n`, most significant first, without leading zeros.
pub open spec fn decimal_digits(n: nat) -> Seq<char>
    decreases n,
{
    if n < 10 {
        seq![digit_char(n as int)]
    } else {
        decimal_digits(n / 10).push(digit_char((n % 10) as int))
    }
}

/// The decimal notation of `v`, with a minus sign in front when it is negative.
pub open spec fn decimal_text(v: int) -> Seq<char> {
    if v < 0 {
        seq!['-'] + decimal_digits((-v) as nat)
    } else {
        decimal_digits(v as nat)
    }
}

fn digit_str(d: u64) -> (s: &'static str)
    requires
        d < 10,
    ensures
        s@ == seq![digit_char(d as int)],
{
    proof {
        reveal_strlit("0");
        reveal_strlit("1");
        reveal_strlit("2");
        reveal_strlit("3");
        reveal_strlit("4");
        reveal_strlit("5");
        reveal_strlit("6");
        reveal_strlit("7");
        reveal_strlit("8");
        reveal_strlit("9");
    }
    let s = if d == 0 {
        "0"
    } else if d == 1 {
        "1"
    } else if d == 2 {
        "2"
    } else if d == 3 {
        "3"
    } else if d == 4 {
        "4"
    } else if d == 5 {
        "5"
    } else if d == 6 {
        "6"
    } else if d == 7 {
        "7"
    } else if d == 8 {
        "8"
    } else {
        "9"
    };
    assert(s@ =~= seq![digit_char(d as int)]);
    s
}

fn push_digits(out: &mut String, n: u64)
    ensures
        final(out)@ == old(out)@ + decimal_digits(n as nat),
    decreases n,
{
    if n >= 10 {
        push_digits(out, n / 10);
    }
    out.append(digit_str(n % 10));
    assert(out@ =~= old(out)@ + decimal_digits(n as nat));
}

/// Writes `v` in decimal notation.
pub fn decimal(v: i64) -> (text: String)
    ensures
        text@ == decimal_text(v as int),
{
    let mut out = String::new();
    if v < 0 {
        proof {
            reveal_strlit("-");
        }
        out.append("-");
        let magnitude: u64 = ((-(v + 1)) as u64) + 1;
        push_digits(&mut out, magnitude);
        assert(out@ =~= decimal_text(v as int));
    } else {
        push_digits(&mut out, v as u64);
        assert(out@ =~= decimal_text(v as int));
    }
    out
}

} // verus!
