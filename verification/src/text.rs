//! Character-level string operations shared by the rest of the library.
use vstd::prelude::*;
use vstd::string::*;

verus! {

/// `true` when `suffix` is a suffix of `s`.
pub open spec fn has_suffix(s: Seq<char>, suffix: Seq<char>) -> bool {
    suffix.len() <= s.len() && s.subrange(s.len() - suffix.len(), s.len() as int) == suffix
}

/// `s` with `suffix` removed from its end when it ends with it, else `s` unchanged.
pub open spec fn without_suffix(s: Seq<char>, suffix: Seq<char>) -> Seq<char> {
    if has_suffix(s, suffix) {
        s.subrange(0, s.len() - suffix.len())
    } else {
        s
    }
}

/// `i` is the position of the first occurrence of `c` in `s`.
pub open spec fn is_first_index(s: Seq<char>, c: char, i: int) -> bool {
    &&& 0 <= i < s.len()
    &&& s[i] == c
    &&& forall|j: int| 0 <= j < i ==> s[j] != c
}

/// `s` with every occurrence of `c` replaced by the sequence `w`.
pub open spec fn replace_all(s: Seq<char>, c: char, w: Seq<char>) -> Seq<char>
    decreases s.len(),
{
    if s.len() == 0 {
        Seq::empty()
    } else {
        replace_all(s.drop_last(), c, w) + if s.last() == c {
            w
        } else {
            seq![s.last()]
        }
    }
}

/// Number of occurrences of `c` in `s`.
pub open spec fn count_char(s: Seq<char>, c: char) -> nat
    decreases s.len(),
{
    if s.len() == 0 {
        0
    } else {
        count_char(s.drop_last(), c) + if s.last() == c {
            1nat
        } else {
            0nat
        }
    }
}

/// The character that writes the decimal digit `d`.
pub open spec fn digit(d: int) -> char {
    if d == 0 {
        '0'
    } else if d == 1 {
        '1'
    } else if d == 2 {
        '2'
    } else if d == 3 {
        '3'
    } else if d == 4 {
        '4'
    } else if d == 5 {
        '5'
    } else if d == 6 {
        '6'
    } else if d == 7 {
        '7'
    } else if d == 8 {
        '8'
    } else {
        '9'
    }
}

/// The value of a decimal digit character (`0` for any other character).
pub open spec fn digit_value(c: char) -> int {
    if c == '1' {
        1
    } else if c == '2' {
        2
    } else if c == '3' {
        3
    } else if c == '4' {
        4
    } else if c == '5' {
        5
    } else if c == '6' {
        6
    } else if c == '7' {
        7
    } else if c == '8' {
        8
    } else if c == '9' {
        9
    } else {
        0
    }
}

/// The shortest decimal writing of `n`, as `usize::to_string` gives it.
pub open spec fn decimal(n: nat) -> Seq<char>
    decreases n,
{
    if n < 10 {
        seq![digit(n as int)]
    } else {
        decimal(n / 10).push(digit((n % 10) as int))
    }
}

/// The number that a string of decimal digits writes.
pub open spec fn decimal_value(s: Seq<char>) -> int
    decreases s.len(),
{
    if s.len() == 0 {
        0
    } else {
        decimal_value(s.drop_last()) * 10 + digit_value(s.last())
    }
}

/// Reading back the decimal writing of `n` gives `n`.
pub proof fn lemma_decimal_value(n: nat)
    ensures
        decimal_value(decimal(n)) == n,
    decreases n,
{
    if n >= 10 {
        lemma_decimal_value(n / 10);
        let s = decimal(n);
        assert(s.drop_last() =~= decimal(n / 10));
        assert(digit_value(digit((n % 10) as int)) == n % 10);
        assert(n == (n / 10) * 10 + n % 10);
        assert(decimal_value(s) == decimal_value(s.drop_last()) * 10 + digit_value(s.last()));
    } else {
        let s = decimal(n);
        assert(s.drop_last() =~= Seq::<char>::empty());
        assert(digit_value(digit(n as int)) == n);
        assert(decimal_value(s) == decimal_value(s.drop_last()) * 10 + digit_value(s.last()));
    }
}

/// Two numbers with the same decimal writing are equal.
pub proof fn lemma_decimal_injective(a: nat, b: nat)
    requires
        decimal(a) == decimal(b),
    ensures
        a == b,
{
    lemma_decimal_value(a);
    lemma_decimal_value(b);
}

/// Text without the character `c` comes through the replacement unchanged.
pub proof fn lemma_replace_absent(s: Seq<char>, c: char, w: Seq<char>)
    requires
        count_char(s, c) == 0,
    ensures
        replace_all(s, c, w) == s,
    decreases s.len(),
{
    if s.len() > 0 {
        lemma_replace_absent(s.drop_last(), c, w);
        assert(s.drop_last().push(s.last()) =~= s);
    } else {
        assert(s =~= Seq::<char>::empty());
    }
}

/// Each replaced character gives way to the whole of `w`: the result is as long as the
/// characters kept plus one `w` per occurrence.
pub proof fn lemma_replace_len(s: Seq<char>, c: char, w: Seq<char>)
    ensures
        replace_all(s, c, w).len() == (s.len() - count_char(s, c)) + count_char(s, c) * w.len(),
    decreases s.len(),
{
    if s.len() > 0 {
        lemma_replace_len(s.drop_last(), c, w);
        let k = count_char(s.drop_last(), c);
        let t = replace_all(s.drop_last(), c, w);
        assert(t.len() == (s.len() - 1 - k) + k * w.len());
        if s.last() == c {
            assert(count_char(s, c) == k + 1);
            assert(replace_all(s, c, w).len() == t.len() + w.len());
            assert((k + 1) * w.len() == k * w.len() + w.len()) by (nonlinear_arith);
        } else {
            assert(count_char(s, c) == k);
            assert(replace_all(s, c, w).len() == t.len() + 1);
        }
    } else {
        assert(count_char(s, c) == 0);
        assert(0 * w.len() == 0);
    }
}

/// Appends one character to a string.
///
/// Calls `String::push`, which std documents as appending the given `char`
/// to the end of the string; the contract claims exactly that.
#[verifier::external_body]
pub(crate) fn push_char(s: &mut String, c: char)
    ensures
        final(s)@ == old(s)@.push(c),
{
    s.push(c);
}

/// Copies a string slice into an owned string.
pub fn owned(s: &str) -> (r: String)
    ensures
        r@ == s@,
{
    String::from_str(s)
}

/// A copy of a list of strings.
pub fn copy_strings(v: &Vec<String>) -> (r: Vec<String>)
    ensures
        r@ == v@,
{
    let mut out: Vec<String> = Vec::new();
    let mut i: usize = 0;
    while i < v.len()
        invariant
            i <= v@.len(),
            out@ == v@.subrange(0, i as int),
        decreases v@.len() - i,
    {
        out.push(v[i].clone());
        assert(v@.subrange(0, i + 1) =~= v@.subrange(0, i as int).push(v@[i as int]));
        i = i + 1;
    }
    assert(v@.subrange(0, v@.len() as int) =~= v@);
    out
}

/// Whether two string slices hold the same characters.
pub fn str_eq(a: &str, b: &str) -> (r: bool)
    ensures
        r == (a@ == b@),
{
    let x = owned(a);
    let y = owned(b);
    x == y
}

/// Whether `s` ends with `suffix`, compared character by character.
pub fn ends_with(s: &str, suffix: &str) -> (r: bool)
    ensures
        r == has_suffix(s@, suffix@),
{
    let n = s.unicode_len();
    let m = suffix.unicode_len();
    if m > n {
        return false;
    }
    let off = n - m;
    let mut i: usize = 0;
    while i < m
        invariant
            n == s@.len(),
            m == suffix@.len(),
            off == n - m,
            i <= m,
            forall|j: int| 0 <= j < i ==> s@[off + j] == suffix@[j],
        decreases m - i,
    {
        if s.get_char(off + i) != suffix.get_char(i) {
            assert(s@.subrange(off as int, n as int)[i as int] != suffix@[i as int]);
            return false;
        }
        i = i + 1;
    }
    assert(s@.subrange(off as int, n as int) =~= suffix@);
    true
}

/// `s` without `suffix` at its end, or `s` itself where it does not end with it.
pub fn strip_suffix_or_keep(s: &str, suffix: &str) -> (r: String)
    ensures
        r@ == without_suffix(s@, suffix@),
{
    if ends_with(s, suffix) {
        let n = s.unicode_len();
        let m = suffix.unicode_len();
        owned(s.substring_char(0, n - m))
    } else {
        owned(s)
    }
}

/// Splits `s` at the first occurrence of `c`: the part before and the part after it.
pub fn split_once(s: &str, c: char) -> (r: Option<(String, String)>)
    ensures
        match r {
            None => forall|j: int| 0 <= j < s@.len() ==> s@[j] != c,
            Some((a, b)) => {
                &&& is_first_index(s@, c, a@.len() as int)
                &&& s@ == a@ + seq![c] + b@
            },
        },
{
    let n = s.unicode_len();
    let mut i: usize = 0;
    while i < n
        invariant
            n == s@.len(),
            i <= n,
            forall|j: int| 0 <= j < i ==> s@[j] != c,
        decreases n - i,
    {
        if s.get_char(i) == c {
            let a = owned(s.substring_char(0, i));
            let b = owned(s.substring_char(i + 1, n));
            assert(s@ =~= a@ + seq![c] + b@);
            return Some((a, b));
        }
        i = i + 1;
    }
    None
}

/// `s` with every occurrence of `c` replaced by `with`.
pub fn replace_char(s: &str, c: char, with: &str) -> (r: String)
    ensures
        r@ == replace_all(s@, c, with@),
{
    let n = s.unicode_len();
    let mut out = String::new();
    let mut i: usize = 0;
    while i < n
        invariant
            n == s@.len(),
            i <= n,
            out@ == replace_all(s@.subrange(0, i as int), c, with@),
        decreases n - i,
    {
        let ch = s.get_char(i);
        assert(s@.subrange(0, i + 1).drop_last() =~= s@.subrange(0, i as int));
        if ch == c {
            out.append(with);
        } else {
            push_char(&mut out, ch);
        }
        i = i + 1;
    }
    assert(s@.subrange(0, n as int) =~= s@);
    out
}

/// The character of the decimal digit `d`.
pub fn digit_char(d: usize) -> (c: char)
    requires
        d < 10,
    ensures
        c == digit(d as int),
{
    match d {
        0 => '0',
        1 => '1',
        2 => '2',
        3 => '3',
        4 => '4',
        5 => '5',
        6 => '6',
        7 => '7',
        8 => '8',
        _ => '9',
    }
}

/// Appends the decimal writing of `n` to `out`.
pub fn write_decimal(n: usize, out: &mut String)
    ensures
        final(out)@ == old(out)@ + decimal(n as nat),
    decreases n,
{
    if n >= 10 {
        write_decimal(n / 10, out);
    }
    push_char(out, digit_char(n % 10));
    proof {
        if n < 10 {
            assert(n % 10 == n);
        }
    }
}

/// The decimal writing of `n`, as `usize::to_string` gives it.
pub fn to_decimal(n: usize) -> (r: String)
    ensures
        r@ == decimal(n as nat),
{
    let mut out = String::new();
    write_decimal(n, &mut out);
    out
}

} // verus!
