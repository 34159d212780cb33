//! Verified text scanning primitives: exact and ASCII-case-insensitive
//! pattern matching at a position, first-occurrence search, and first-match
//! replacement.  The template substitution of the license and readme steps
//! and the parsing of registry search output are built on these.

use vstd::prelude::*;

verus! {

/// `pat` occurs in `s` at position `i`, exactly.
pub open spec fn match_at(s: Seq<char>, i: int, pat: Seq<char>) -> bool {
    0 <= i && i + pat.len() <= s.len() && s.subrange(i, i + pat.len()) == pat
}

/// The lower-cased code of a character: ASCII upper-case letters are folded,
/// every other character is itself.
pub open spec fn lower_code(c: char) -> int {
    if 65 <= c as int <= 90 {
        c as int + 32
    } else {
        c as int
    }
}

/// Two characters are equal up to ASCII case.
pub open spec fn eq_ci(a: char, b: char) -> bool {
    lower_code(a) == lower_code(b)
}

/// `pat` occurs in `s` at position `i`, up to ASCII case.
pub open spec fn match_ci_at(s: Seq<char>, i: int, pat: Seq<char>) -> bool {
    0 <= i && i + pat.len() <= s.len() && forall|k: int|
        0 <= k < pat.len() ==> eq_ci(s[i + k], pat[k])
}

/// The first position of `c` in `s` at or after `from`, or the length of
/// `s` when there is none.
pub open spec fn first_index_from(s: Seq<char>, from: int, c: char) -> int
    decreases s.len() - from
        when 0 <= from <= s.len()
{
    if from >= s.len() {
        s.len() as int
    } else if s[from] == c {
        from
    } else {
        first_index_from(s, from + 1, c)
    }
}

/// A position that does not hold `c` can be skipped in the search.
pub proof fn lemma_first_index_step(s: Seq<char>, from: int, c: char)
    requires
        0 <= from < s.len(),
        s[from] != c,
    ensures
        first_index_from(s, from, c) == first_index_from(s, from + 1, c),
{
}

/// The first occurrence is an occurrence, comes no earlier than `from`, and
/// nothing before it matches.
pub proof fn lemma_first_index_spec(s: Seq<char>, from: int, c: char)
    requires
        0 <= from <= s.len(),
    ensures
        from <= first_index_from(s, from, c) <= s.len(),
        first_index_from(s, from, c) < s.len() ==> s[first_index_from(s, from, c)] == c,
        forall|j: int| from <= j < first_index_from(s, from, c) ==> s[j] != c,
    decreases s.len() - from,
{
    if from < s.len() && s[from] != c {
        lemma_first_index_spec(s, from + 1, c);
    }
}

/// Whether `pat` occurs in `s` at position `i`, exactly.
pub fn matches_at(s: &str, i: usize, pat: &str) -> (r: bool)
    requires
        i <= s@.len(),
    ensures
        r == match_at(s@, i as int, pat@),
{
    let n = pat.unicode_len();
    let total = s.unicode_len();
    if n > total - i {
        assert(i + pat@.len() > s@.len());
        return false;
    }
    let mut k: usize = 0;
    while k < n
        invariant
            0 <= k <= n,
            n == pat@.len(),
            total == s@.len(),
            i + n <= total,
            forall|j: int| 0 <= j < k ==> s@[i + j] == pat@[j],
        decreases n - k,
    {
        if s.get_char(i + k) != pat.get_char(k) {
            assert(s@.subrange(i as int, i + pat@.len()) != pat@) by {
                assert(s@.subrange(i as int, i + pat@.len())[k as int] == s@[i + k]);
            }
            return false;
        }
        k = k + 1;
    }
    assert(s@.subrange(i as int, i + pat@.len()) =~= pat@);
    true
}

/// Whether `pat` occurs in `s` at position `i`, up to ASCII case.
pub fn matches_ci_at(s: &str, i: usize, pat: &str) -> (r: bool)
    requires
        i <= s@.len(),
    ensures
        r == match_ci_at(s@, i as int, pat@),
{
    let n = pat.unicode_len();
    let total = s.unicode_len();
    if n > total - i {
        assert(i + pat@.len() > s@.len());
        return false;
    }
    let mut k: usize = 0;
    while k < n
        invariant
            0 <= k <= n,
            n == pat@.len(),
            total == s@.len(),
            i + n <= total,
            forall|j: int| 0 <= j < k ==> eq_ci(s@[i + j], pat@[j]),
        decreases n - k,
    {
        let a = s.get_char(i + k) as u32;
        let b = pat.get_char(k) as u32;
        let af = if 65 <= a && a <= 90 {
            a + 32
        } else {
            a
        };
        let bf = if 65 <= b && b <= 90 {
            b + 32
        } else {
            b
        };
        if af != bf {
            assert(!eq_ci(s@[i + k], pat@[k as int]));
            return false;
        }
        assert(eq_ci(s@[i + k], pat@[k as int]));
        k = k + 1;
    }
    true
}

/// The first position of `c` in `s` at or after `from`, or the length of
/// `s` when there is none.
pub fn find_char_from(s: &str, from: usize, c: char) -> (r: usize)
    requires
        from <= s@.len(),
    ensures
        r as int == first_index_from(s@, from as int, c),
{
    let total = s.unicode_len();
    let mut i: usize = from;
    while i < total
        invariant
            from <= i <= total,
            total == s@.len(),
            first_index_from(s@, from as int, c) == first_index_from(s@, i as int, c),
        decreases total - i,
    {
        if s.get_char(i) == c {
            return i;
        }
        proof {
            lemma_first_index_step(s@, i as int, c);
        }
        i = i + 1;
    }
    i
}

/// `s` with the first exact occurrence of `pat` replaced by `repl`; `s`
/// itself when `pat` does not occur.
pub open spec fn replaced_first(s: Seq<char>, pat: Seq<char>, repl: Seq<char>) -> Seq<char>
    decreases s.len(),
{
    if pat.len() == 0 || s.len() < pat.len() {
        s
    } else if s.subrange(0, pat.len() as int) == pat {
        repl + s.skip(pat.len() as int)
    } else {
        seq![s[0]] + replaced_first(s.skip(1), pat, repl)
    }
}

/// Replacing at a later position keeps the head.
pub proof fn lemma_replaced_first_step(s: Seq<char>, pat: Seq<char>, repl: Seq<char>, i: int)
    requires
        pat.len() > 0,
        0 <= i,
        i + pat.len() <= s.len(),
        !match_at(s, i, pat),
    ensures
        replaced_first(s.skip(i), pat, repl) == seq![s[i]] + replaced_first(s.skip(i + 1), pat, repl),
{
    let t = s.skip(i);
    assert(t.len() >= pat.len());
    assert(t.subrange(0, pat.len() as int) =~= s.subrange(i, i + pat.len()));
    assert(t.subrange(0, pat.len() as int) != pat);
    assert(t.skip(1) =~= s.skip(i + 1));
    assert(t[0] == s[i]);
}

/// Replaces the first exact occurrence of `pat` in `s` with `repl`.
pub fn replace_first(s: &str, pat: &str, repl: &str) -> (r: String)
    requires
        pat@.len() > 0,
    ensures
        r@ == replaced_first(s@, pat@, repl@),
{
    let total = s.unicode_len();
    let n = pat.unicode_len();
    let mut out = String::new();
    if n > total {
        let rest = s.substring_char(0, total);
        out.append(rest);
        proof {
            assert(s@.subrange(0, total as int) =~= s@);
            assert(replaced_first(s@, pat@, repl@) == s@);
        }
        return out;
    }
    let mut i: usize = 0;
    proof {
        assert(s@.skip(0) =~= s@);
    }
    while i <= total - n
        invariant
            0 <= i <= total - n + 1,
            n <= total,
            total == s@.len(),
            n == pat@.len(),
            n > 0,
            replaced_first(s@, pat@, repl@) == out@ + replaced_first(
                s@.skip(i as int),
                pat@,
                repl@,
            ),
        decreases total - i,
    {
        if matches_at(s, i, pat) {
            out.append(repl);
            let rest = s.substring_char(i + n, total);
            out.append(rest);
            proof {
                let t = s@.skip(i as int);
                assert(t.subrange(0, pat@.len() as int) =~= s@.subrange(i as int, i + n));
                assert(t.skip(pat@.len() as int) =~= s@.skip(i + n));
                assert(replaced_first(t, pat@, repl@) == repl@ + s@.skip(i + n));
                assert(s@.skip(i + n) =~= s@.subrange(i + n, total as int));
            }
            return out;
        }
        let one = s.substring_char(i, i + 1);
        out.append(one);
        proof {
            lemma_replaced_first_step(s@, pat@, repl@, i as int);
            assert(seq![s@[i as int]] =~= s@.subrange(i as int, i + 1));
        }
        i = i + 1;
    }
    let rest = s.substring_char(i, total);
    out.append(rest);
    proof {
        let t = s@.skip(i as int);
        assert(t.len() < pat@.len());
        assert(replaced_first(t, pat@, repl@) == t);
        assert(t =~= s@.subrange(i as int, total as int));
    }
    out
}

} // verus!
