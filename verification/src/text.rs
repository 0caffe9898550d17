//! Verified text primitives the fallback action parser is built from:
//! substring search, first/last character search, whitespace trimming and
//! newline escaping, each with an exact sequence-level specification.

use vstd::prelude::*;

verus! {

/// Position of the first occurrence of `pat` in `s` at or after `from`.
pub open spec fn find_from(s: Seq<char>, pat: Seq<char>, from: int) -> Option<int>
    decreases s.len() - from,
{
    if from < 0 || from + pat.len() > s.len() {
        None
    } else if pat.len() == 0 {
        Some(from)
    } else if s.subrange(from, from + pat.len() as int) == pat {
        Some(from)
    } else {
        find_from(s, pat, from + 1)
    }
}

/// Position of the first occurrence of `pat` in `s`.
pub open spec fn spec_find(s: Seq<char>, pat: Seq<char>) -> Option<int> {
    find_from(s, pat, 0)
}

/// Position of the first occurrence of the character `c` in `s` at or after `from`.
pub open spec fn find_char_from(s: Seq<char>, c: char, from: int) -> Option<int>
    decreases s.len() - from,
{
    if from < 0 || from >= s.len() {
        None
    } else if s[from] == c {
        Some(from)
    } else {
        find_char_from(s, c, from + 1)
    }
}

/// Position of the first occurrence of the character `c` in `s`.
pub open spec fn spec_find_char(s: Seq<char>, c: char) -> Option<int> {
    find_char_from(s, c, 0)
}

/// Position of the last occurrence of the character `c` in `s` at or before `from`.
pub open spec fn rfind_char_from(s: Seq<char>, c: char, from: int) -> Option<int>
    decreases from + 1,
{
    if from < 0 || from >= s.len() {
        None
    } else if s[from] == c {
        Some(from)
    } else {
        rfind_char_from(s, c, from - 1)
    }
}

/// Position of the last occurrence of the character `c` in `s`.
pub open spec fn spec_rfind_char(s: Seq<char>, c: char) -> Option<int> {
    rfind_char_from(s, c, s.len() - 1)
}

/// Whether `c` is whitespace, as trimming understands it.
pub open spec fn is_space(c: char) -> bool {
    c == ' ' || c == '\t' || c == '\n' || c == '\r' || c == '\u{b}' || c == '\u{c}'
        || c == '\u{85}' || c == '\u{a0}' || c == '\u{1680}' || c == '\u{2000}'
        || c == '\u{2001}' || c == '\u{2002}' || c == '\u{2003}' || c == '\u{2004}'
        || c == '\u{2005}' || c == '\u{2006}' || c == '\u{2007}' || c == '\u{2008}'
        || c == '\u{2009}' || c == '\u{200a}' || c == '\u{2028}' || c == '\u{2029}'
        || c == '\u{202f}' || c == '\u{205f}' || c == '\u{3000}'
}

/// Index of the first non-whitespace character at or after `from`, or the
/// length of `s` if all of the rest is whitespace.
pub open spec fn first_non_space(s: Seq<char>, from: int) -> int
    decreases s.len() - from,
{
    if from < 0 || from >= s.len() {
        s.len() as int
    } else if !is_space(s[from]) {
        from
    } else {
        first_non_space(s, from + 1)
    }
}

/// Index of the last non-whitespace character at or before `from`, or -1 if
/// there is none.
pub open spec fn last_non_space(s: Seq<char>, from: int) -> int
    decreases from + 1,
{
    if from < 0 || from >= s.len() {
        -1
    } else if !is_space(s[from]) {
        from
    } else {
        last_non_space(s, from - 1)
    }
}

/// `s` with leading and trailing whitespace removed.
pub open spec fn trim_spec(s: Seq<char>) -> Seq<char> {
    let a = first_non_space(s, 0);
    if a == s.len() {
        Seq::empty()
    } else {
        s.subrange(a, last_non_space(s, s.len() - 1) + 1)
    }
}

/// What one character contributes once literal newlines are escaped.
pub open spec fn escape_char(c: char) -> Seq<char> {
    if c == '\n' {
        seq!['\\', 'n']
    } else if c == '\r' {
        seq!['\\', 'r']
    } else {
        seq![c]
    }
}

/// `s` with every literal newline and carriage return turned into its
/// two-character escape sequence.
pub open spec fn escape_text(s: Seq<char>) -> Seq<char>
    decreases s.len(),
{
    if s.len() == 0 {
        Seq::empty()
    } else {
        escape_text(s.drop_last()) + escape_char(s.last())
    }
}

/// Whether one of the given names reads `n`.
pub open spec fn name_in(names: Seq<String>, n: Seq<char>) -> bool {
    exists|k: int| 0 <= k < names.len() && names[k]@ == n
}

/// A successful search lands inside `s`, with room for the whole pattern.
pub proof fn lemma_find_from_bounds(s: Seq<char>, pat: Seq<char>, from: int)
    ensures
        match find_from(s, pat, from) {
            Some(i) => from <= i && 0 <= i && i + pat.len() <= s.len(),
            None => true,
        },
    decreases s.len() - from,
{
    if from < 0 || from + pat.len() > s.len() {
    } else if pat.len() == 0 {
    } else if s.subrange(from, from + pat.len() as int) == pat {
    } else {
        lemma_find_from_bounds(s, pat, from + 1);
    }
}

/// A successful character search lands inside `s`, on the character sought.
pub proof fn lemma_find_char_bounds(s: Seq<char>, c: char, from: int)
    ensures
        match find_char_from(s, c, from) {
            Some(i) => from <= i < s.len() && 0 <= i && s[i] == c,
            None => true,
        },
    decreases s.len() - from,
{
    if from < 0 || from >= s.len() {
    } else if s[from] == c {
    } else {
        lemma_find_char_bounds(s, c, from + 1);
    }
}

/// A successful backward character search lands inside `s`, on the character
/// sought.
pub proof fn lemma_rfind_char_bounds(s: Seq<char>, c: char, from: int)
    ensures
        match rfind_char_from(s, c, from) {
            Some(i) => 0 <= i <= from && i < s.len() && s[i] == c,
            None => true,
        },
    decreases from + 1,
{
    if from < 0 || from >= s.len() {
    } else if s[from] == c {
    } else {
        lemma_rfind_char_bounds(s, c, from - 1);
    }
}

fn matches_at(s: &str, pat: &str, i: usize) -> (b: bool)
    requires
        i + pat@.len() <= s@.len(),
        s@.len() <= usize::MAX,
    ensures
        b == (s@.subrange(i as int, i + pat@.len() as int) == pat@),
{
    let m = pat.unicode_len();
    let mut j: usize = 0;
    while j < m
        invariant
            m == pat@.len(),
            i + m <= s@.len() <= usize::MAX,
            j <= m,
            forall|k: int| 0 <= k < j ==> s@[i + k] == pat@[k],
        decreases m - j,
    {
        if s.get_char(i + j) != pat.get_char(j) {
            proof {
                assert(s@.subrange(i as int, i + pat@.len() as int)[j as int] == s@[i + j]);
            }
            return false;
        }
        j += 1;
    }
    proof {
        assert(s@.subrange(i as int, i + pat@.len() as int) =~= pat@);
    }
    true
}

/// First occurrence of `pat` in `s`, if any.
pub fn find_str(s: &str, pat: &str) -> (r: Option<usize>)
    ensures
        match r {
            Some(j) => spec_find(s@, pat@) == Some(j as int),
            None => spec_find(s@, pat@) is None,
        },
{
    let n = s.unicode_len();
    let m = pat.unicode_len();
    if m > n {
        return None;
    }
    if m == 0 {
        return Some(0);
    }
    let mut i: usize = 0;
    while i < n - m + 1
        invariant
            1 <= m <= n,
            n == s@.len() <= usize::MAX,
            m == pat@.len(),
            i <= n - m + 1,
            find_from(s@, pat@, 0) == find_from(s@, pat@, i as int),
        decreases n - m + 1 - i,
    {
        if matches_at(s, pat, i) {
            return Some(i);
        }
        i += 1;
    }
    assert(find_from(s@, pat@, i as int) is None);
    None
}

/// First occurrence of the character `c` in `s`, if any.
pub fn find_char(s: &str, c: char) -> (r: Option<usize>)
    ensures
        s@.len() <= usize::MAX,
        match r {
            Some(j) => spec_find_char(s@, c) == Some(j as int),
            None => spec_find_char(s@, c) is None,
        },
{
    let n = s.unicode_len();
    let mut i: usize = 0;
    while i < n
        invariant
            n == s@.len() <= usize::MAX,
            i <= n,
            find_char_from(s@, c, 0) == find_char_from(s@, c, i as int),
        decreases n - i,
    {
        if s.get_char(i) == c {
            return Some(i);
        }
        i += 1;
    }
    None
}

/// Last occurrence of the character `c` in `s`, if any.
pub fn rfind_char(s: &str, c: char) -> (r: Option<usize>)
    ensures
        s@.len() <= usize::MAX,
        match r {
            Some(j) => spec_rfind_char(s@, c) == Some(j as int),
            None => spec_rfind_char(s@, c) is None,
        },
{
    let n = s.unicode_len();
    let mut i: usize = n;
    while i > 0
        invariant
            n == s@.len() <= usize::MAX,
            i <= n,
            rfind_char_from(s@, c, n - 1) == rfind_char_from(s@, c, i - 1),
        decreases i,
    {
        if s.get_char(i - 1) == c {
            return Some(i - 1);
        }
        i -= 1;
    }
    None
}

fn space_char(c: char) -> (b: bool)
    ensures
        b == is_space(c),
{
    c == ' ' || c == '\t' || c == '\n' || c == '\r' || c == '\u{b}' || c == '\u{c}'
        || c == '\u{85}' || c == '\u{a0}' || c == '\u{1680}' || c == '\u{2000}'
        || c == '\u{2001}' || c == '\u{2002}' || c == '\u{2003}' || c == '\u{2004}'
        || c == '\u{2005}' || c == '\u{2006}' || c == '\u{2007}' || c == '\u{2008}'
        || c == '\u{2009}' || c == '\u{200a}' || c == '\u{2028}' || c == '\u{2029}'
        || c == '\u{202f}' || c == '\u{205f}' || c == '\u{3000}'
}

fn first_ns(s: &str) -> (r: usize)
    ensures
        r as int == first_non_space(s@, 0),
        r <= s@.len(),
        r < s@.len() ==> !is_space(s@[r as int]),
{
    let n = s.unicode_len();
    let mut a: usize = 0;
    while a < n
        invariant
            n == s@.len() <= usize::MAX,
            a <= n,
            first_non_space(s@, 0) == first_non_space(s@, a as int),
        decreases n - a,
    {
        if !space_char(s.get_char(a)) {
            return a;
        }
        a += 1;
    }
    n
}

fn last_ns(s: &str, a: usize) -> (r: usize)
    requires
        a < s@.len() <= usize::MAX,
        !is_space(s@[a as int]),
    ensures
        r as int == last_non_space(s@, s@.len() - 1),
        a <= r < s@.len(),
{
    let n = s.unicode_len();
    let mut b: usize = n - 1;
    while b > a
        invariant
            a <= b < n,
            n == s@.len() <= usize::MAX,
            !is_space(s@[a as int]),
            last_non_space(s@, n - 1) == last_non_space(s@, b as int),
        decreases b,
    {
        if !space_char(s.get_char(b)) {
            return b;
        }
        b -= 1;
    }
    b
}

/// `s` with leading and trailing whitespace removed.
pub fn trim_str<'a>(s: &'a str) -> (r: &'a str)
    ensures
        r@ == trim_spec(s@),
{
    let n = s.unicode_len();
    let a = first_ns(s);
    if a == n {
        let empty = s.substring_char(n, n);
        proof {
            assert(empty@ =~= trim_spec(s@));
        }
        return empty;
    }
    let b = last_ns(s, a);
    s.substring_char(a, b + 1)
}

/// `s` with every literal newline and carriage return escaped.
pub fn escape_newlines(s: &str) -> (r: String)
    ensures
        r@ == escape_text(s@),
{
    let n = s.unicode_len();
    let mut out = String::new();
    let mut i: usize = 0;
    while i < n
        invariant
            i <= n,
            n == s@.len() <= usize::MAX,
            out@ == escape_text(s@.take(i as int)),
        decreases n - i,
    {
        let c = s.get_char(i);
        if c == '\n' {
            out.append("\\n");
            proof {
                reveal_strlit("\\n");
                assert(("\\n")@ =~= seq!['\\', 'n']);
            }
        } else if c == '\r' {
            out.append("\\r");
            proof {
                reveal_strlit("\\r");
                assert(("\\r")@ =~= seq!['\\', 'r']);
            }
        } else {
            let piece = s.substring_char(i, i + 1);
            out.append(piece);
            proof {
                assert(piece@ =~= seq![s@[i as int]]);
            }
        }
        proof {
            assert(s@.take(i + 1).drop_last() =~= s@.take(i as int));
            assert(s@.take(i + 1).last() == s@[i as int]);
        }
        i += 1;
    }
    proof {
        assert(s@.take(n as int) =~= s@);
    }
    out
}

/// Whether one of `names` reads the same as `n`.
pub fn contains_name(names: &Vec<String>, n: &String) -> (b: bool)
    ensures
        b == name_in(names@, n@),
{
    let mut k: usize = 0;
    while k < names.len()
        invariant
            k <= names@.len(),
            forall|j: int| 0 <= j < k ==> names@[j]@ != n@,
        decreases names@.len() - k,
    {
        if names[k].eq(n) {
            return true;
        }
        k += 1;
    }
    false
}

} // verus!
