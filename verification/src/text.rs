//! Text helpers with exact character-level contracts.

use vstd::prelude::*;
use vstd::string::StrSliceExecFns;
use vstd::string::StringExecFns;

verus! {

/// The decimal digit character for `d` (`d < 10`).
pub open spec fn digit_char(d: nat) -> char {
    if d == 0 {
        '0'
    } else if d == 1 {
        '1'
    } else if d == 2 {
        '2'
    } else if d == 3 {
        '3'
    } else if d == 4 {
        '4'
    } else if d == 5 {
        '5'
    } else if d == 6 {
        '6'
    } else if d == 7 {
        '7'
    } else if d == 8 {
        '8'
    } else {
        '9'
    }
}

/// The decimal rendering of `n`, without sign or leading zeros.
pub open spec fn decimal(n: nat) -> Seq<char>
    decreases n,
{
    if n < 10 {
        seq![digit_char(n)]
    } else {
        decimal(n / 10).push(digit_char(n % 10))
    }
}

/// The value of a decimal digit character.
pub open spec fn digit_value(c: char) -> nat {
    if c == '1' {
        1
    } else if c == '2' {
        2
    } else if c == '3' {
        3
    } else if c == '4' {
        4
    } else if c == '5' {
        5
    } else if c == '6' {
        6
    } else if c == '7' {
        7
    } else if c == '8' {
        8
    } else if c == '9' {
        9
    } else {
        0
    }
}

/// The value of a string of decimal digits.
pub open spec fn digits_value(s: Seq<char>) -> nat
    decreases s.len(),
{
    if s.len() == 0 {
        0
    } else {
        digits_value(s.drop_last()) * 10 + digit_value(s.last())
    }
}

/// Reading the decimal rendering of `n` back gives `n`; the rendering is
/// never empty and starts with `0` only for `n == 0`.
pub proof fn lemma_decimal_round_trip(n: nat)
    ensures
        digits_value(decimal(n)) == n,
        decimal(n).len() > 0,
        decimal(n)[0] == '0' ==> n == 0,
    decreases n,
{
    if n >= 10 {
        lemma_decimal_round_trip(n / 10);
        assert(decimal(n).drop_last() =~= decimal(n / 10));
        assert(digit_value(digit_char(n % 10)) == n % 10);
        assert(decimal(n)[0] == decimal(n / 10)[0]);
        assert(n == (n / 10) * 10 + n % 10);
        assert(digits_value(decimal(n)) == digits_value(decimal(n).drop_last()) * 10 + digit_value(
            decimal(n).last(),
        ));
        assert(decimal(n).last() == digit_char(n % 10));
    } else {
        assert(decimal(n).drop_last() =~= Seq::<char>::empty());
        assert(digit_value(digit_char(n)) == n);
        assert(digits_value(Seq::<char>::empty()) == 0);
        assert(digits_value(decimal(n)) == digits_value(decimal(n).drop_last()) * 10 + digit_value(
            decimal(n).last(),
        ));
    }
}

fn digit_str(d: u64) -> (s: &'static str)
    requires
        d < 10,
    ensures
        s@ == seq![digit_char(d as nat)],
{
    if d == 0 {
        proof { reveal_strlit("0"); }
        "0"
    } else if d == 1 {
        proof { reveal_strlit("1"); }
        "1"
    } else if d == 2 {
        proof { reveal_strlit("2"); }
        "2"
    } else if d == 3 {
        proof { reveal_strlit("3"); }
        "3"
    } else if d == 4 {
        proof { reveal_strlit("4"); }
        "4"
    } else if d == 5 {
        proof { reveal_strlit("5"); }
        "5"
    } else if d == 6 {
        proof { reveal_strlit("6"); }
        "6"
    } else if d == 7 {
        proof { reveal_strlit("7"); }
        "7"
    } else if d == 8 {
        proof { reveal_strlit("8"); }
        "8"
    } else {
        proof { reveal_strlit("9"); }
        "9"
    }
}

/// Appends the decimal rendering of `n` to `out`.
pub fn push_decimal(out: &mut String, n: u64)
    ensures
        final(out)@ == old(out)@ + decimal(n as nat),
    decreases n,
{
    if n >= 10 {
        push_decimal(out, n / 10);
    }
    out.append(digit_str(n % 10));
}

/// The characters of `s`, one by one.
pub fn chars_of(s: &str) -> (v: Vec<char>)
    ensures
        v@ == s@,
{
    let n = s.unicode_len();
    let mut v: Vec<char> = Vec::new();
    let mut i: usize = 0;
    while i < n
        invariant
            n == s@.len(),
            i <= n,
            v@ == s@.take(i as int),
        decreases n - i,
    {
        v.push(s.get_char(i));
        assert(s@.take(i + 1) =~= s@.take(i as int).push(s@[i as int]));
        i = i + 1;
    }
    assert(s@.take(n as int) =~= s@);
    v
}

/// `s` with every leading copy of `pat` removed, as `str::trim_start_matches`
/// does for a string pattern; an empty pattern removes nothing.
pub open spec fn trimmed(s: Seq<char>, pat: Seq<char>) -> Seq<char>
    decreases s.len(),
{
    if 0 < pat.len() <= s.len() && s.take(pat.len() as int) == pat {
        trimmed(s.skip(pat.len() as int), pat)
    } else {
        s
    }
}

/// Trimming removes only leading copies of the pattern: the result is a
/// suffix of the input, and it no longer starts with a non-empty pattern.
pub proof fn lemma_trimmed_is_unprefixed_suffix(s: Seq<char>, pat: Seq<char>)
    ensures
        trimmed(s, pat).len() <= s.len(),
        trimmed(s, pat) == s.skip(s.len() - trimmed(s, pat).len()),
        pat.len() > 0 ==> !(pat.len() <= trimmed(s, pat).len() && trimmed(s, pat).take(
            pat.len() as int,
        ) == pat),
    decreases s.len(),
{
    if 0 < pat.len() <= s.len() && s.take(pat.len() as int) == pat {
        let rest = s.skip(pat.len() as int);
        lemma_trimmed_is_unprefixed_suffix(rest, pat);
        let t = trimmed(rest, pat);
        assert(rest.skip(rest.len() - t.len()) =~= s.skip(s.len() - t.len()));
    } else {
        assert(s.skip(0) =~= s);
    }
}

/// A leading copy of a non-empty pattern is removed, and what follows is
/// trimmed in turn.
pub proof fn lemma_trimmed_leading_copy(pat: Seq<char>, rest: Seq<char>)
    requires
        pat.len() > 0,
    ensures
        trimmed(pat + rest, pat) == trimmed(rest, pat),
{
    assert((pat + rest).take(pat.len() as int) =~= pat);
    assert((pat + rest).skip(pat.len() as int) =~= rest);
}

/// Trimming twice is trimming once.
pub proof fn lemma_trimmed_idempotent(s: Seq<char>, pat: Seq<char>)
    ensures
        trimmed(trimmed(s, pat), pat) == trimmed(s, pat),
{
    lemma_trimmed_is_unprefixed_suffix(s, pat);
}

/// Whether `pat` occurs in `v` at position `k`.
fn occurs_at(v: &Vec<char>, k: usize, pat: &Vec<char>) -> (b: bool)
    requires
        k <= v.len(),
    ensures
        b == (pat.len() <= v.len() - k && v@.subrange(k as int, k + pat.len()) == pat@),
{
    let m = pat.len();
    if m > v.len() - k {
        return false;
    }
    let mut j: usize = 0;
    while j < m
        invariant
            m == pat.len(),
            m <= v.len() - k,
            j <= m,
            forall|t: int| 0 <= t < j ==> v@[k + t] == pat@[t],
        decreases m - j,
    {
        if v[k + j] != pat[j] {
            assert(v@.subrange(k as int, k + m)[j as int] != pat@[j as int]);
            return false;
        }
        j = j + 1;
    }
    assert(v@.subrange(k as int, k + m) =~= pat@);
    true
}

/// `s` with every leading copy of `pat` removed.
pub fn trim_start_matches(s: &str, pat: &str) -> (res: String)
    ensures
        res@ == trimmed(s@, pat@),
{
    let sv = chars_of(s);
    let pv = chars_of(pat);
    let n = sv.len();
    let m = pv.len();
    let mut k: usize = 0;
    if m > 0 {
        assert(s@.skip(0) =~= s@);
        loop
            invariant
                n == s@.len(),
                m == pat@.len(),
                sv@ == s@,
                pv@ == pat@,
                0 < m,
                k <= n,
                trimmed(s@, pat@) == trimmed(s@.skip(k as int), pat@),
            ensures
                k <= n,
                trimmed(s@, pat@) == s@.skip(k as int),
            decreases n - k,
        {
            let hit = occurs_at(&sv, k, &pv);
            if m <= n - k {
                assert(s@.skip(k as int).take(m as int) =~= s@.subrange(k as int, k + m));
            }
            if hit {
                assert(s@.skip(k as int).skip(m as int) =~= s@.skip(k + m));
                k = k + m;
            } else {
                break;
            }
        }
    } else {
        assert(s@.skip(0) =~= s@);
    }
    String::from_str(s.substring_char(k, n))
}

/// The parts joined with `sep` between neighbours.
pub open spec fn joined(parts: Seq<Seq<char>>, sep: Seq<char>) -> Seq<char>
    decreases parts.len(),
{
    if parts.len() == 0 {
        Seq::empty()
    } else if parts.len() == 1 {
        parts[0]
    } else {
        joined(parts.drop_last(), sep) + sep + parts.last()
    }
}

/// Joining puts `sep` between neighbours and nowhere else: nothing joins to
/// nothing, one part joins to itself, and a further part is added after
/// one more separator.
pub proof fn lemma_joined_parts(parts: Seq<Seq<char>>, sep: Seq<char>, x: Seq<char>)
    ensures
        joined(Seq::empty(), sep) == Seq::<char>::empty(),
        joined(seq![x], sep) == x,
        parts.len() > 0 ==> joined(parts.push(x), sep) == joined(parts, sep) + sep + x,
{
    assert(parts.push(x).drop_last() =~= parts);
}

/// The parts joined with `sep` between neighbours, as `[String]::join` does.
pub fn join(parts: &Vec<String>, sep: &str) -> (res: String)
    ensures
        res@ == joined(parts.deep_view(), sep@),
{
    let mut res = String::new();
    let n = parts.len();
    let mut i: usize = 0;
    while i < n
        invariant
            n == parts.len(),
            i <= n,
            res@ == joined(parts.deep_view().take(i as int), sep@),
        decreases n - i,
    {
        let ghost prefix = parts.deep_view().take(i + 1);
        assert(prefix.drop_last() =~= parts.deep_view().take(i as int));
        if i > 0 {
            res.append(sep);
        } else {
            assert(parts.deep_view().take(0) =~= Seq::<Seq<char>>::empty());
        }
        res.append(parts[i].as_str());
        i = i + 1;
    }
    assert(parts.deep_view().take(n as int) =~= parts.deep_view());
    res
}

} // verus!
