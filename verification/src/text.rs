//! Verified text primitives: substring search, literal replacement, trimming,
//! splitting, case folding and marker extraction, over sequences of characters.
//!
//! Every template substitution in this crate is literal string replacement of
//! `{name}` tokens, never a format-string interpreter, because templates may
//! contain braces that are not placeholders.

use vstd::prelude::*;

verus! {

// ---------------------------------------------------------------------------
// Substring occurrence and first match
// ---------------------------------------------------------------------------

/// `pat` occurs in `s` starting at index `i`.
pub open spec fn occurs_at(s: Seq<char>, pat: Seq<char>, i: int) -> bool {
    0 <= i && i + pat.len() <= s.len() && s.subrange(i, i + pat.len() as int) == pat
}

/// `pat` occurs somewhere in `s`.
pub open spec fn contains_sub(s: Seq<char>, pat: Seq<char>) -> bool {
    exists|i: int| occurs_at(s, pat, i)
}

/// Index of the first occurrence of `pat` in `s`, if any.
pub open spec fn find_sub(s: Seq<char>, pat: Seq<char>) -> Option<int>
    decreases s.len(),
{
    if pat.len() > s.len() {
        None
    } else if s.subrange(0, pat.len() as int) == pat {
        Some(0)
    } else if s.len() == 0 {
        None
    } else {
        match find_sub(s.skip(1), pat) {
            Some(j) => Some(j + 1),
            None => None,
        }
    }
}

/// Occurrences in the tail of `s` are occurrences in `s`, shifted by one.
proof fn lemma_occurs_shift(s: Seq<char>, pat: Seq<char>, j: int)
    requires
        s.len() > 0,
        0 <= j,
    ensures
        occurs_at(s.skip(1), pat, j) <==> occurs_at(s, pat, j + 1),
{
    if 0 <= j && j + pat.len() <= s.len() - 1 {
        assert(s.skip(1).subrange(j, j + pat.len() as int) =~= s.subrange(
            j + 1,
            j + 1 + pat.len() as int,
        ));
    }
}

/// `find_sub` returns the least occurrence index, or `None` when there is none.
pub proof fn lemma_find_sub(s: Seq<char>, pat: Seq<char>)
    ensures
        match find_sub(s, pat) {
            Some(i) => occurs_at(s, pat, i) && forall|j: int|
                0 <= j < i ==> !occurs_at(s, pat, j),
            None => !contains_sub(s, pat),
        },
    decreases s.len(),
{
    if pat.len() > s.len() {
        assert forall|j: int| !occurs_at(s, pat, j) by {}
    } else if s.subrange(0, pat.len() as int) == pat {
        assert(occurs_at(s, pat, 0));
    } else if s.len() == 0 {
        assert forall|j: int| !occurs_at(s, pat, j) by {
            if occurs_at(s, pat, j) {
                assert(s.subrange(j, j + pat.len() as int) =~= s.subrange(0, pat.len() as int));
            }
        }
    } else {
        lemma_find_sub(s.skip(1), pat);
        match find_sub(s.skip(1), pat) {
            Some(j) => {
                lemma_occurs_shift(s, pat, j);
                assert(occurs_at(s, pat, j + 1));
                assert forall|k: int| 0 <= k < j + 1 implies !occurs_at(s, pat, k) by {
                    if k == 0 {
                        if occurs_at(s, pat, 0) {
                            assert(s.subrange(0, pat.len() as int) == pat);
                        }
                    } else {
                        lemma_occurs_shift(s, pat, k - 1);
                    }
                }
            },
            None => {
                assert forall|k: int| !occurs_at(s, pat, k) by {
                    if occurs_at(s, pat, k) {
                        if k == 0 {
                            assert(s.subrange(0, pat.len() as int) == pat);
                        } else {
                            lemma_occurs_shift(s, pat, k - 1);
                            assert(occurs_at(s.skip(1), pat, k - 1));
                        }
                    }
                }
            },
        }
    }
}

/// An occurrence anywhere means `find_sub` succeeds with an index at or before it.
pub proof fn lemma_find_sub_present(s: Seq<char>, pat: Seq<char>, i: int)
    requires
        occurs_at(s, pat, i),
    ensures
        find_sub(s, pat) is Some,
        find_sub(s, pat)->Some_0 <= i,
{
    lemma_find_sub(s, pat);
    if find_sub(s, pat) is None {
        assert(contains_sub(s, pat));
    } else {
        let f = find_sub(s, pat)->Some_0;
        if f > i {
            assert(!occurs_at(s, pat, i));
        }
    }
}

// ---------------------------------------------------------------------------
// Exec comparison and search over character vectors
// ---------------------------------------------------------------------------

/// Does `pat` match `s` starting at `at`?
pub fn matches_at(s: &Vec<char>, pat: &Vec<char>, at: usize) -> (r: bool)
    requires
        at + pat@.len() <= s@.len(),
    ensures
        r == occurs_at(s@, pat@, at as int),
{
    let n = s.len();
    let mut k: usize = 0;
    while k < pat.len()
        invariant
            n == s@.len(),
            at + pat@.len() <= s@.len(),
            k <= pat@.len(),
            forall|m: int| 0 <= m < k ==> s@[at + m] == pat@[m],
        decreases pat@.len() - k,
    {
        if s[at + k] != pat[k] {
            assert(s@.subrange(at as int, at + pat@.len() as int)[k as int] != pat@[k as int]);
            return false;
        }
        k += 1;
    }
    assert(s@.subrange(at as int, at + pat@.len() as int) =~= pat@);
    true
}

/// First occurrence of `pat` in `s` at or after index 0.
pub fn find_in(s: &Vec<char>, pat: &Vec<char>) -> (r: Option<usize>)
    ensures
        match r {
            Some(i) => Some(i as int) == find_sub(s@, pat@) && occurs_at(s@, pat@, i as int),
            None => find_sub(s@, pat@) is None && !contains_sub(s@, pat@),
        },
{
    proof {
        lemma_find_sub(s@, pat@);
    }
    if pat.len() > s.len() {
        return None;
    }
    if pat.len() == 0 {
        proof {
            assert(s@.subrange(0, 0) =~= pat@);
        }
        return Some(0);
    }
    let n = s.len();
    let last = n - pat.len();
    let mut i: usize = 0;
    while i <= last
        invariant
            n == s@.len(),
            1 <= pat@.len() <= s@.len(),
            last == s@.len() - pat@.len(),
            i <= last + 1,
            forall|j: int| 0 <= j < i ==> !occurs_at(s@, pat@, j),
        decreases last + 1 - i,
    {
        if matches_at(s, pat, i) {
            proof {
                lemma_find_sub(s@, pat@);
                let f = find_sub(s@, pat@);
                assert(f is Some) by {
                    if f is None {
                        assert(!occurs_at(s@, pat@, i as int));
                    }
                }
            }
            return Some(i);
        }
        i += 1;
    }
    proof {
        assert forall|j: int| !occurs_at(s@, pat@, j) by {
            if occurs_at(s@, pat@, j) {
                assert(j + pat@.len() <= s@.len());
            }
        }
    }
    None
}


// ---------------------------------------------------------------------------
// Literal replacement
// ---------------------------------------------------------------------------

/// Replace every occurrence of `pat` in `s` with `rep`, scanning left to
/// right over non-overlapping occurrences. An empty pattern replaces nothing.
pub open spec fn replace_all(s: Seq<char>, pat: Seq<char>, rep: Seq<char>) -> Seq<char>
    decreases s.len(),
{
    if pat.len() == 0 || s.len() < pat.len() {
        s
    } else if s.subrange(0, pat.len() as int) == pat {
        rep + replace_all(s.skip(pat.len() as int), pat, rep)
    } else {
        seq![s[0]] + replace_all(s.skip(1), pat, rep)
    }
}

/// When `pat` occurs nowhere in `s`, replacement leaves `s` unchanged.
pub proof fn lemma_replace_all_absent(s: Seq<char>, pat: Seq<char>, rep: Seq<char>)
    requires
        !contains_sub(s, pat) || pat.len() == 0,
    ensures
        replace_all(s, pat, rep) == s,
    decreases s.len(),
{
    if pat.len() == 0 || s.len() < pat.len() {
    } else if s.subrange(0, pat.len() as int) == pat {
        assert(occurs_at(s, pat, 0));
    } else {
        assert(!contains_sub(s.skip(1), pat)) by {
            if contains_sub(s.skip(1), pat) {
                let j = choose|j: int| occurs_at(s.skip(1), pat, j);
                lemma_occurs_shift(s, pat, j);
                assert(occurs_at(s, pat, j + 1));
            }
        }
        lemma_replace_all_absent(s.skip(1), pat, rep);
        assert(seq![s[0]] + s.skip(1) =~= s);
    }
}

/// Every character of the replacement result comes from `s` or from `rep`.
pub proof fn lemma_replace_all_chars(s: Seq<char>, pat: Seq<char>, rep: Seq<char>)
    ensures
        forall|i: int|
            0 <= i < replace_all(s, pat, rep).len() ==> s.contains(
                #[trigger] replace_all(s, pat, rep)[i],
            ) || rep.contains(replace_all(s, pat, rep)[i]),
    decreases s.len(),
{
    let r = replace_all(s, pat, rep);
    if pat.len() == 0 || s.len() < pat.len() {
    } else if s.subrange(0, pat.len() as int) == pat {
        lemma_replace_all_chars(s.skip(pat.len() as int), pat, rep);
        assert forall|i: int| 0 <= i < r.len() implies s.contains(#[trigger] r[i]) || rep.contains(
            r[i],
        ) by {
            if i < rep.len() {
                assert(rep.contains(r[i]));
            } else {
                let t = s.skip(pat.len() as int);
                let ri = replace_all(t, pat, rep)[i - rep.len()];
                assert(r[i] == ri);
                if t.contains(ri) {
                    let k = choose|k: int| 0 <= k < t.len() && t[k] == ri;
                    assert(s[k + pat.len()] == ri);
                }
            }
        }
    } else {
        lemma_replace_all_chars(s.skip(1), pat, rep);
        assert forall|i: int| 0 <= i < r.len() implies s.contains(#[trigger] r[i]) || rep.contains(
            r[i],
        ) by {
            if i == 0 {
                assert(s[0] == r[0]);
            } else {
                let t = s.skip(1);
                let ri = replace_all(t, pat, rep)[i - 1];
                assert(r[i] == ri);
                if t.contains(ri) {
                    let k = choose|k: int| 0 <= k < t.len() && t[k] == ri;
                    assert(s[k + 1] == ri);
                }
            }
        }
    }
}

/// Append every character of `extra` to `out`.
pub fn push_all(out: &mut Vec<char>, extra: &Vec<char>)
    ensures
        final(out)@ == old(out)@ + extra@,
{
    let n = extra.len();
    let mut k: usize = 0;
    while k < n
        invariant
            n == extra@.len(),
            k <= n,
            out@ == old(out)@ + extra@.subrange(0, k as int),
        decreases n - k,
    {
        out.push(extra[k]);
        proof {
            assert(old(out)@ + extra@.subrange(0, k + 1 as int) =~= (old(out)@ + extra@.subrange(
                0,
                k as int,
            )).push(extra@[k as int]));
        }
        k += 1;
    }
    proof {
        assert(extra@.subrange(0, n as int) =~= extra@);
    }
}

/// Copy a character vector.
pub fn copy_chars(s: &Vec<char>) -> (r: Vec<char>)
    ensures
        r@ == s@,
{
    let mut out: Vec<char> = Vec::new();
    push_all(&mut out, s);
    proof {
        assert(Seq::<char>::empty() + s@ =~= s@);
    }
    out
}

/// Exec literal replacement over character vectors.
pub fn replace_all_in(s: &Vec<char>, pat: &Vec<char>, rep: &Vec<char>) -> (r: Vec<char>)
    ensures
        r@ == replace_all(s@, pat@, rep@),
{
    if pat.len() == 0 {
        proof {
            lemma_replace_all_absent(s@, pat@, rep@);
        }
        return copy_chars(s);
    }
    let n = s.len();
    let mut out: Vec<char> = Vec::new();
    let mut i: usize = 0;
    proof {
        assert(s@.skip(0) =~= s@);
        assert(Seq::<char>::empty() + replace_all(s@, pat@, rep@) =~= replace_all(s@, pat@, rep@));
    }
    while i < n
        invariant
            n == s@.len(),
            pat@.len() >= 1,
            i <= n,
            replace_all(s@, pat@, rep@) == out@ + replace_all(s@.skip(i as int), pat@, rep@),
        decreases n - i,
    {
        if pat.len() <= n - i && matches_at(s, pat, i) {
            proof {
                let t = s@.skip(i as int);
                assert(t.subrange(0, pat@.len() as int) =~= s@.subrange(
                    i as int,
                    i + pat@.len() as int,
                ));
                assert(t.skip(pat@.len() as int) =~= s@.skip(i + pat@.len() as int));
                assert(out@ + (rep@ + replace_all(s@.skip(i + pat@.len() as int), pat@, rep@))
                    =~= (out@ + rep@) + replace_all(s@.skip(i + pat@.len() as int), pat@, rep@));
            }
            push_all(&mut out, rep);
            i += pat.len();
        } else {
            proof {
                let t = s@.skip(i as int);
                assert(t.len() >= 1);
                if t.len() >= pat@.len() {
                    assert(t.subrange(0, pat@.len() as int) =~= s@.subrange(
                        i as int,
                        i + pat@.len() as int,
                    ));
                }
                assert(t.skip(1) =~= s@.skip(i + 1));
                assert(out@ + (seq![t[0]] + replace_all(s@.skip(i + 1), pat@, rep@)) =~= out@.push(
                    s@[i as int],
                ) + replace_all(s@.skip(i + 1), pat@, rep@));
            }
            out.push(s[i]);
            i += 1;
        }
    }
    proof {
        assert(s@.skip(n as int) =~= Seq::<char>::empty());
        assert(out@ + Seq::<char>::empty() =~= out@);
    }
    out
}


// ---------------------------------------------------------------------------
// Whitespace trimming
// ---------------------------------------------------------------------------

/// ASCII whitespace.
pub open spec fn is_space(c: char) -> bool {
    c == ' ' || c == '\t' || c == '\n' || c == '\r'
}

/// `s` without leading whitespace.
pub open spec fn trim_start_spec(s: Seq<char>) -> Seq<char>
    decreases s.len(),
{
    if s.len() > 0 && is_space(s[0]) {
        trim_start_spec(s.skip(1))
    } else {
        s
    }
}

/// `s` without trailing whitespace.
pub open spec fn trim_end_spec(s: Seq<char>) -> Seq<char>
    decreases s.len(),
{
    if s.len() > 0 && is_space(s[s.len() - 1]) {
        trim_end_spec(s.take(s.len() - 1))
    } else {
        s
    }
}

/// `s` without leading or trailing whitespace.
pub open spec fn trim_spec(s: Seq<char>) -> Seq<char> {
    trim_end_spec(trim_start_spec(s))
}

proof fn lemma_trim_start_no_leading(s: Seq<char>)
    ensures
        trim_start_spec(s).len() > 0 ==> !is_space(trim_start_spec(s)[0]),
        trim_start_spec(s).len() == 0 || !is_space(trim_start_spec(s)[0]),
    decreases s.len(),
{
    if s.len() > 0 && is_space(s[0]) {
        lemma_trim_start_no_leading(s.skip(1));
    }
}

proof fn lemma_trim_end_no_trailing(s: Seq<char>)
    ensures
        trim_end_spec(s).len() > 0 ==> !is_space(trim_end_spec(s)[trim_end_spec(s).len() - 1]),
    decreases s.len(),
{
    if s.len() > 0 && is_space(s[s.len() - 1]) {
        lemma_trim_end_no_trailing(s.take(s.len() - 1));
    }
}

proof fn lemma_trim_end_prefix(s: Seq<char>)
    ensures
        trim_end_spec(s).len() <= s.len(),
        trim_end_spec(s) == s.take(trim_end_spec(s).len() as int),
    decreases s.len(),
{
    if s.len() > 0 && is_space(s[s.len() - 1]) {
        lemma_trim_end_prefix(s.take(s.len() - 1));
        let r = trim_end_spec(s);
        assert(s.take(s.len() - 1).take(r.len() as int) =~= s.take(r.len() as int));
    } else {
        assert(s.take(s.len() as int) =~= s);
    }
}

/// Trimming an already trimmed sequence changes nothing.
pub proof fn lemma_trim_idempotent(s: Seq<char>)
    ensures
        trim_spec(trim_spec(s)) == trim_spec(s),
{
    let t = trim_spec(s);
    lemma_trim_start_no_leading(s);
    lemma_trim_end_prefix(trim_start_spec(s));
    if t.len() > 0 {
        assert(t[0] == trim_start_spec(s)[0]);
    }
    assert(trim_start_spec(t) == t);
    lemma_trim_end_no_trailing(trim_start_spec(s));
    assert(trim_end_spec(t) == t);
}

/// A sequence with no leading or trailing whitespace trims to itself.
pub proof fn lemma_trim_of_clean(s: Seq<char>)
    requires
        s.len() > 0 ==> !is_space(s[0]),
        s.len() > 0 ==> !is_space(s[s.len() - 1]),
    ensures
        trim_spec(s) == s,
{
    assert(trim_start_spec(s) == s);
    assert(trim_end_spec(s) == s);
}

/// Exec trim over character vectors.
#[verifier::rlimit(50)]
pub fn trim_in(s: &Vec<char>) -> (r: Vec<char>)
    ensures
        r@ == trim_spec(s@),
{
    let n = s.len();
    let mut a: usize = 0;
    proof {
        assert(s@.skip(0) =~= s@);
    }
    while a < n && (s[a] == ' ' || s[a] == '\t' || s[a] == '\n' || s[a] == '\r')
        invariant
            n == s@.len(),
            a <= n,
            trim_start_spec(s@) == trim_start_spec(s@.skip(a as int)),
        decreases n - a,
    {
        proof {
            assert(s@.skip(a as int).skip(1) =~= s@.skip(a + 1));
        }
        a += 1;
    }
    proof {
        if a < n {
            assert(!is_space(s@.skip(a as int)[0]));
        } else {
            assert(s@.skip(a as int).len() == 0);
        }
        assert(trim_start_spec(s@) == s@.skip(a as int));
    }
    let mut b: usize = n;
    while b > a && (s[b - 1] == ' ' || s[b - 1] == '\t' || s[b - 1] == '\n' || s[b - 1] == '\r')
        invariant
            n == s@.len(),
            a <= b <= n,
            trim_start_spec(s@) == s@.skip(a as int),
            trim_end_spec(s@.skip(a as int)) == trim_end_spec(s@.subrange(a as int, b as int)),
        decreases b,
    {
        proof {
            let cur = s@.subrange(a as int, b as int);
            assert(cur[cur.len() - 1] == s@[b - 1]);
            assert(cur.take(cur.len() - 1) =~= s@.subrange(a as int, b - 1 as int));
        }
        b -= 1;
    }
    proof {
        let cur = s@.subrange(a as int, b as int);
        if b > a {
            assert(!is_space(cur[cur.len() - 1]));
        }
        assert(trim_end_spec(cur) == cur);
    }
    let mut out: Vec<char> = Vec::new();
    let mut i: usize = a;
    while i < b
        invariant
            n == s@.len(),
            a <= i <= b <= n,
            out@ == s@.subrange(a as int, i as int),
        decreases b - i,
    {
        out.push(s[i]);
        proof {
            assert(s@.subrange(a as int, i + 1 as int) =~= s@.subrange(a as int, i as int).push(
                s@[i as int],
            ));
        }
        i += 1;
    }
    out
}

// ---------------------------------------------------------------------------
// Splitting on a separator character
// ---------------------------------------------------------------------------

/// The prefix of `s` before the first occurrence of `sep` (all of `s` when
/// `sep` does not occur).
pub open spec fn first_seg(s: Seq<char>, sep: char) -> Seq<char>
    decreases s.len(),
{
    if s.len() == 0 {
        s
    } else if s[0] == sep {
        Seq::empty()
    } else {
        seq![s[0]] + first_seg(s.skip(1), sep)
    }
}

proof fn lemma_first_seg_take(s: Seq<char>, sep: char, k: int)
    requires
        0 <= k <= s.len(),
        forall|j: int| 0 <= j < k ==> s[j] != sep,
        k == s.len() || s[k] == sep,
    ensures
        first_seg(s, sep) == s.take(k),
    decreases s.len(),
{
    if s.len() == 0 {
        assert(s.take(k) =~= s);
    } else if s[0] == sep {
        assert(s.take(0) =~= Seq::<char>::empty());
    } else {
        lemma_first_seg_take(s.skip(1), sep, k - 1);
        assert(s.skip(1).take(k - 1) =~= s.take(k).skip(1));
        assert(seq![s[0]] + s.take(k).skip(1) =~= s.take(k));
    }
}

/// When `sep` does not occur in `s`, the first segment is all of `s`.
pub proof fn lemma_first_seg_absent(s: Seq<char>, sep: char)
    requires
        forall|j: int| 0 <= j < s.len() ==> s[j] != sep,
    ensures
        first_seg(s, sep) == s,
{
    lemma_first_seg_take(s, sep, s.len() as int);
    assert(s.take(s.len() as int) =~= s);
}

/// The first segment never contains the separator.
pub proof fn lemma_first_seg_clean(s: Seq<char>, sep: char)
    ensures
        forall|j: int| 0 <= j < first_seg(s, sep).len() ==> first_seg(s, sep)[j] != sep,
    decreases s.len(),
{
    if s.len() == 0 {
    } else if s[0] == sep {
    } else {
        lemma_first_seg_clean(s.skip(1), sep);
        let r = first_seg(s, sep);
        assert forall|j: int| 0 <= j < r.len() implies r[j] != sep by {
            if j > 0 {
                assert(r[j] == first_seg(s.skip(1), sep)[j - 1]);
            }
        }
    }
}

/// Exec split: the prefix of `s` before the first `sep`.
pub fn first_seg_in(s: &Vec<char>, sep: char) -> (r: Vec<char>)
    ensures
        r@ == first_seg(s@, sep),
{
    let n = s.len();
    let mut out: Vec<char> = Vec::new();
    let mut i: usize = 0;
    while i < n
        invariant
            n == s@.len(),
            i <= n,
            out@ == s@.take(i as int),
            forall|j: int| 0 <= j < i ==> s@[j] != sep,
        decreases n - i,
    {
        let c = s[i];
        if c == sep {
            proof {
                lemma_first_seg_take(s@, sep, i as int);
            }
            return out;
        }
        out.push(c);
        proof {
            assert(s@.take(i + 1 as int) =~= s@.take(i as int).push(s@[i as int]));
        }
        i += 1;
    }
    proof {
        lemma_first_seg_take(s@, sep, n as int);
        assert(s@.take(n as int) =~= s@);
    }
    out
}

// ---------------------------------------------------------------------------
// ASCII case folding and punctuation
// ---------------------------------------------------------------------------

/// ASCII lower-casing of one character: 'A'..='Z' map to 'a'..='z'; all other
/// characters are unchanged.
pub open spec fn lower_char(c: char) -> char {
    if 'A' <= c && c <= 'Z' {
        ((c as u8) + 32) as char
    } else {
        c
    }
}

/// ASCII lower-casing of a sequence.
pub open spec fn lower_seq(s: Seq<char>) -> Seq<char> {
    s.map_values(|c: char| lower_char(c))
}

/// Lower-casing one character twice equals doing it once.
pub proof fn lemma_lower_char_idempotent(c: char)
    ensures
        lower_char(lower_char(c)) == lower_char(c),
{
}

/// Exec ASCII lower-casing.
pub fn lower_in(s: &Vec<char>) -> (r: Vec<char>)
    ensures
        r@ == lower_seq(s@),
{
    let n = s.len();
    let mut out: Vec<char> = Vec::new();
    let mut i: usize = 0;
    while i < n
        invariant
            n == s@.len(),
            i <= n,
            out@ == lower_seq(s@.take(i as int)),
        decreases n - i,
    {
        let c = s[i];
        if 'A' <= c && c <= 'Z' {
            let b: u8 = (c as u8) + 32;
            out.push(b as char);
        } else {
            out.push(c);
        }
        proof {
            assert(lower_seq(s@.take(i + 1 as int)) =~= lower_seq(s@.take(i as int)).push(
                lower_char(s@[i as int]),
            ));
        }
        i += 1;
    }
    proof {
        assert(s@.take(n as int) =~= s@);
    }
    out
}

/// ASCII punctuation: the four ASCII ranges around the letters and digits.
pub open spec fn is_punct(c: char) -> bool {
    ('!' <= c && c <= '/') || (':' <= c && c <= '@') || ('[' <= c && c <= '`') || ('{' <= c && c
        <= '~')
}

/// `s` with every ASCII punctuation character removed.
pub open spec fn drop_punct(s: Seq<char>) -> Seq<char> {
    s.filter(|c: char| !is_punct(c))
}

/// Exec punctuation filter.
pub fn drop_punct_in(s: &Vec<char>) -> (r: Vec<char>)
    ensures
        r@ == drop_punct(s@),
{
    let n = s.len();
    let mut out: Vec<char> = Vec::new();
    let mut i: usize = 0;
    while i < n
        invariant
            n == s@.len(),
            i <= n,
            out@ == drop_punct(s@.take(i as int)),
        decreases n - i,
    {
        let c = s[i];
        let keep = !(('!' <= c && c <= '/') || (':' <= c && c <= '@') || ('[' <= c && c <= '`') || (
        '{' <= c && c <= '~'));
        proof {
            let pred = |x: char| !is_punct(x);
            let t = s@.take(i + 1 as int);
            assert(t.drop_last() =~= s@.take(i as int));
            reveal_with_fuel(Seq::filter, 2);
            assert(t.filter(pred) == if pred(t.last()) {
                t.drop_last().filter(pred).push(t.last())
            } else {
                t.drop_last().filter(pred)
            });
        }
        if keep {
            out.push(c);
        }
        i += 1;
    }
    proof {
        assert(s@.take(n as int) =~= s@);
    }
    out
}

/// A sequence with no punctuation filters to itself.
pub proof fn lemma_drop_punct_of_clean(s: Seq<char>)
    requires
        forall|j: int| 0 <= j < s.len() ==> !is_punct(s[j]),
    ensures
        drop_punct(s) == s,
    decreases s.len(),
{
    reveal_with_fuel(Seq::filter, 2);
    if s.len() == 0 {
        assert(s.filter(|c: char| !is_punct(c)) =~= s);
    } else {
        lemma_drop_punct_of_clean(s.drop_last());
        assert(s.drop_last().push(s.last()) =~= s);
    }
}

/// The filtered sequence contains no punctuation.
pub proof fn lemma_drop_punct_clean(s: Seq<char>)
    ensures
        forall|j: int| 0 <= j < drop_punct(s).len() ==> !is_punct(drop_punct(s)[j]),
{
    broadcast use vstd::seq_lib::group_seq_lib_default;

    assert forall|j: int| 0 <= j < drop_punct(s).len() implies !is_punct(drop_punct(s)[j]) by {
        s.lemma_filter_pred(|c: char| !is_punct(c), j);
    }
}


// ---------------------------------------------------------------------------
// Extraction between markers
// ---------------------------------------------------------------------------

/// The text between the first `start_pat` and the next `end_pat` after it,
/// when both are present.
pub open spec fn extract_between_spec(s: Seq<char>, start_pat: Seq<char>, end_pat: Seq<char>)
    -> Option<Seq<char>> {
    match find_sub(s, start_pat) {
        Some(i) => {
            let rest = s.skip(i + start_pat.len() as int);
            match find_sub(rest, end_pat) {
                Some(j) => Some(rest.take(j)),
                None => None,
            }
        },
        None => None,
    }
}

/// Every maximal chunk sandwiched between a `start_pat` and the next
/// `end_pat`, scanning left to right.
pub open spec fn extract_all_between(s: Seq<char>, start_pat: Seq<char>, end_pat: Seq<char>)
    -> Seq<Seq<char>>
    decreases s.len(),
    when start_pat.len() > 0 && end_pat.len() > 0
    via extract_all_between_decreases
{
    match find_sub(s, start_pat) {
        Some(i) => {
            let rest = s.skip(i + start_pat.len() as int);
            match find_sub(rest, end_pat) {
                Some(j) => seq![rest.take(j)] + extract_all_between(
                    rest.skip(j + end_pat.len() as int),
                    start_pat,
                    end_pat,
                ),
                None => Seq::empty(),
            }
        },
        None => Seq::empty(),
    }
}

#[via_fn]
proof fn extract_all_between_decreases(s: Seq<char>, start_pat: Seq<char>, end_pat: Seq<char>) {
    lemma_find_sub(s, start_pat);
    if find_sub(s, start_pat) is Some {
        let i = find_sub(s, start_pat)->Some_0;
        let rest = s.skip(i + start_pat.len() as int);
        lemma_find_sub(rest, end_pat);
    }
}

proof fn lemma_find_sub_bounds(s: Seq<char>, pat: Seq<char>)
    ensures
        find_sub(s, pat) is Some ==> 0 <= find_sub(s, pat)->Some_0 && find_sub(s, pat)->Some_0
            + pat.len() <= s.len(),
{
    lemma_find_sub(s, pat);
}

/// Exec extraction of the first chunk between the markers.
pub fn extract_between_in(s: &Vec<char>, start_pat: &Vec<char>, end_pat: &Vec<char>) -> (r: Option<
    Vec<char>,
>)
    ensures
        match r {
            Some(v) => extract_between_spec(s@, start_pat@, end_pat@) == Some(v@),
            None => extract_between_spec(s@, start_pat@, end_pat@) is None,
        },
{
    proof {
        lemma_find_sub_bounds(s@, start_pat@);
    }
    let slen = s.len();
    match find_in(s, start_pat) {
        Some(i) => {
            proof {
                assert(i + start_pat@.len() <= slen);
            }
            let rest = suffix_from(s, i + start_pat.len());
            proof {
                lemma_find_sub_bounds(rest@, end_pat@);
            }
            match find_in(&rest, end_pat) {
                Some(j) => {
                    let out = prefix_to(&rest, j);
                    Some(out)
                },
                None => None,
            }
        },
        None => None,
    }
}

/// Exec extraction of every chunk between marker pairs, left to right.
pub fn extract_all_between_in(s: &Vec<char>, start_pat: &Vec<char>, end_pat: &Vec<char>) -> (r:
    Vec<Vec<char>>)
    requires
        start_pat@.len() > 0,
        end_pat@.len() > 0,
    ensures
        r@.map_values(|v: Vec<char>| v@) == extract_all_between(s@, start_pat@, end_pat@),
{
    let mut out: Vec<Vec<char>> = Vec::new();
    let mut cur = copy_chars(s);
    proof {
        assert(out@.map_values(|v: Vec<char>| v@) =~= Seq::<Seq<char>>::empty());
        assert(Seq::<Seq<char>>::empty() + extract_all_between(cur@, start_pat@, end_pat@)
            =~= extract_all_between(cur@, start_pat@, end_pat@));
    }
    loop
        invariant
            start_pat@.len() > 0,
            end_pat@.len() > 0,
            extract_all_between(s@, start_pat@, end_pat@) == out@.map_values(|v: Vec<char>| v@)
                + extract_all_between(cur@, start_pat@, end_pat@),
        decreases cur@.len(),
    {
        proof {
            lemma_find_sub_bounds(cur@, start_pat@);
        }
        let curlen = cur.len();
        let found = find_in(&cur, start_pat);
        match found {
            Some(i) => {
                proof {
                    assert(i + start_pat@.len() <= curlen);
                }
                let rest = suffix_from(&cur, i + start_pat.len());
                let restlen = rest.len();
                proof {
                    lemma_find_sub_bounds(rest@, end_pat@);
                }
                match find_in(&rest, end_pat) {
                    Some(j) => {
                        proof {
                            assert(j + end_pat@.len() <= restlen);
                        }
                        let chunk = prefix_to(&rest, j);
                        let next = suffix_from(&rest, j + end_pat.len());
                        proof {
                            let m = |v: Vec<char>| v@;
                            assert(out@.push(chunk).map_values(m) =~= out@.map_values(m).push(
                                chunk@,
                            ));
                            assert(out@.map_values(m).push(chunk@) + extract_all_between(
                                next@,
                                start_pat@,
                                end_pat@,
                            ) =~= out@.map_values(m) + (seq![chunk@] + extract_all_between(
                                next@,
                                start_pat@,
                                end_pat@,
                            )));
                            assert(cur@.len() >= i + start_pat@.len());
                            assert(next@.len() < cur@.len());
                        }
                        out.push(chunk);
                        cur = next;
                    },
                    None => {
                        proof {
                            assert(out@.map_values(|v: Vec<char>| v@) + Seq::<Seq<char>>::empty()
                                =~= out@.map_values(|v: Vec<char>| v@));
                        }
                        return out;
                    },
                }
            },
            None => {
                proof {
                    assert(out@.map_values(|v: Vec<char>| v@) + Seq::<Seq<char>>::empty()
                        =~= out@.map_values(|v: Vec<char>| v@));
                }
                return out;
            },
        }
    }
}

/// The suffix of `s` from index `from`.
pub fn suffix_from(s: &Vec<char>, from: usize) -> (r: Vec<char>)
    requires
        from <= s@.len(),
    ensures
        r@ == s@.skip(from as int),
{
    let n = s.len();
    let mut out: Vec<char> = Vec::new();
    let mut i: usize = from;
    while i < n
        invariant
            n == s@.len(),
            from <= i <= n,
            out@ == s@.subrange(from as int, i as int),
        decreases n - i,
    {
        out.push(s[i]);
        proof {
            assert(s@.subrange(from as int, i + 1 as int) =~= s@.subrange(from as int, i as int)
                .push(s@[i as int]));
        }
        i += 1;
    }
    proof {
        assert(s@.subrange(from as int, n as int) =~= s@.skip(from as int));
    }
    out
}

/// The prefix of `s` up to index `to`.
pub fn prefix_to(s: &Vec<char>, to: usize) -> (r: Vec<char>)
    requires
        to <= s@.len(),
    ensures
        r@ == s@.take(to as int),
{
    let mut out: Vec<char> = Vec::new();
    let mut i: usize = 0;
    while i < to
        invariant
            to <= s@.len(),
            i <= to,
            out@ == s@.subrange(0, i as int),
        decreases to - i,
    {
        out.push(s[i]);
        proof {
            assert(s@.subrange(0, i + 1 as int) =~= s@.subrange(0, i as int).push(s@[i as int]));
        }
        i += 1;
    }
    out
}

// ---------------------------------------------------------------------------
// Conversions between Rust strings and character vectors
// ---------------------------------------------------------------------------

/// The characters of a string slice, in order.
pub fn str_to_chars(s: &str) -> (r: Vec<char>)
    ensures
        r@ == s@,
{
    let n = s.unicode_len();
    let mut out: Vec<char> = Vec::new();
    let mut i: usize = 0;
    while i < n
        invariant
            n == s@.len(),
            i <= n,
            out@ == s@.subrange(0, i as int),
        decreases n - i,
    {
        out.push(s.get_char(i));
        proof {
            assert(s@.subrange(0, i + 1 as int) =~= s@.subrange(0, i as int).push(s@[i as int]));
        }
        i += 1;
    }
    proof {
        assert(s@.subrange(0, n as int) =~= s@);
    }
    out
}

/// Relies on String::push: appends one character at the end of the string.
#[verifier::external_body]
fn push_char(s: &mut String, c: char)
    ensures
        final(s)@ == old(s)@.push(c),
{
    s.push(c);
}

/// A freshly allocated string holding exactly the characters of `v`.
pub fn chars_to_string(v: &Vec<char>) -> (r: String)
    ensures
        r@ == v@,
{
    let n = v.len();
    let mut out = String::new();
    let mut i: usize = 0;
    while i < n
        invariant
            n == v@.len(),
            i <= n,
            out@ == v@.subrange(0, i as int),
        decreases n - i,
    {
        push_char(&mut out, v[i]);
        proof {
            assert(v@.subrange(0, i + 1 as int) =~= v@.subrange(0, i as int).push(v@[i as int]));
        }
        i += 1;
    }
    proof {
        assert(v@.subrange(0, n as int) =~= v@);
    }
    out
}

// ---------------------------------------------------------------------------
// Decimal rendering of integers
// ---------------------------------------------------------------------------

/// The decimal digit character for `d`.
pub open spec fn digit_char(d: nat) -> char {
    (('0' as u8) + d as u8) as char
}

/// Decimal representation of `n`, most significant digit first, no sign and
/// no leading zeros (a single '0' for zero).
pub open spec fn dec_rep(n: nat) -> Seq<char>
    decreases n,
{
    if n < 10 {
        seq![digit_char(n)]
    } else {
        dec_rep(n / 10) + seq![digit_char(n % 10)]
    }
}

/// Exec decimal rendering of a `u64`.
pub fn u64_to_chars(n: u64) -> (r: Vec<char>)
    ensures
        r@ == dec_rep(n as nat),
    decreases n,
{
    if n < 10 {
        let d: u8 = 48u8 + (n as u8);
        let mut out: Vec<char> = Vec::new();
        out.push(d as char);
        proof {
            assert(out@ =~= seq![digit_char(n as nat)]);
        }
        out
    } else {
        let mut out = u64_to_chars(n / 10);
        let d: u8 = 48u8 + ((n % 10) as u8);
        out.push(d as char);
        proof {
            assert(dec_rep((n / 10) as nat).push(digit_char((n % 10) as nat)) =~= dec_rep(
                (n / 10) as nat,
            ) + seq![digit_char((n % 10) as nat)]);
        }
        out
    }
}

// ---------------------------------------------------------------------------
// Joining
// ---------------------------------------------------------------------------

/// The members of `xs` joined with `sep` between neighbours.
pub open spec fn join_with(xs: Seq<Seq<char>>, sep: Seq<char>) -> Seq<char>
    decreases xs.len(),
{
    if xs.len() == 0 {
        Seq::empty()
    } else if xs.len() == 1 {
        xs[0]
    } else {
        xs[0] + sep + join_with(xs.skip(1), sep)
    }
}

/// Exec join over character vectors.
pub fn join_with_in(xs: &Vec<Vec<char>>, sep: &Vec<char>) -> (r: Vec<char>)
    ensures
        r@ == join_with(xs@.map_values(|v: Vec<char>| v@), sep@),
{
    let n = xs.len();
    let mut out: Vec<char> = Vec::new();
    if n == 0 {
        proof {
            assert(xs@.map_values(|v: Vec<char>| v@).len() == 0);
        }
        return out;
    }
    let mut i: usize = 0;
    proof {
        let m = xs@.map_values(|v: Vec<char>| v@);
        assert(m.skip(0) =~= m);
        assert(Seq::<char>::empty() + join_with(m, sep@) =~= join_with(m, sep@));
    }
    while i < n
        invariant
            n == xs@.len(),
            n >= 1,
            i <= n,
            join_with(xs@.map_values(|v: Vec<char>| v@), sep@) == out@ + join_with(
                xs@.map_values(|v: Vec<char>| v@).skip(i as int),
                sep@,
            ),
        decreases n - i,
    {
        proof {
            let m = xs@.map_values(|v: Vec<char>| v@);
            let tail = m.skip(i as int);
            assert(tail.len() == n - i);
            assert(tail[0] == xs@[i as int]@);
            if i + 1 < n {
                assert(tail.skip(1) =~= m.skip(i + 1));
                assert(out@ + (tail[0] + sep@ + join_with(m.skip(i + 1), sep@)) =~= (out@
                    + xs@[i as int]@ + sep@) + join_with(m.skip(i + 1), sep@));
            } else {
                assert(m.skip(i + 1) =~= Seq::<Seq<char>>::empty());
                assert(out@ + tail[0] =~= (out@ + xs@[i as int]@) + join_with(
                    m.skip(i + 1),
                    sep@,
                ));
            }
        }
        push_all(&mut out, &xs[i]);
        if i + 1 < n {
            push_all(&mut out, sep);
        }
        i += 1;
    }
    proof {
        let m = xs@.map_values(|v: Vec<char>| v@);
        assert(m.skip(n as int) =~= Seq::<Seq<char>>::empty());
        assert(out@ + Seq::<char>::empty() =~= out@);
    }
    out
}


// ---------------------------------------------------------------------------
// Character-provenance lemmas
// ---------------------------------------------------------------------------

/// Trimming from the front yields a suffix of `s`.
pub proof fn lemma_trim_start_suffix(s: Seq<char>)
    ensures
        trim_start_spec(s).len() <= s.len(),
        trim_start_spec(s) == s.skip(s.len() - trim_start_spec(s).len()),
    decreases s.len(),
{
    if s.len() > 0 && is_space(s[0]) {
        lemma_trim_start_suffix(s.skip(1));
        let r = trim_start_spec(s);
        assert(s.skip(1).skip(s.len() - 1 - r.len()) =~= s.skip(s.len() - r.len()));
    } else {
        assert(s.skip(0) =~= s);
    }
}

/// Every character of the trimmed sequence occurs in `s`.
pub proof fn lemma_trim_char_subset(s: Seq<char>)
    ensures
        forall|j: int| 0 <= j < trim_spec(s).len() ==> s.contains(#[trigger] trim_spec(s)[j]),
{
    let t = trim_start_spec(s);
    let r = trim_spec(s);
    lemma_trim_start_suffix(s);
    lemma_trim_end_prefix(t);
    assert forall|j: int| 0 <= j < r.len() implies s.contains(#[trigger] r[j]) by {
        assert(r[j] == t.take(r.len() as int)[j]);
        assert(r[j] == t[j]);
        assert(r[j] == s[s.len() - t.len() + j]);
    }
}

/// The first segment is a prefix of `s`.
pub proof fn lemma_first_seg_prefix(s: Seq<char>, sep: char)
    ensures
        first_seg(s, sep).len() <= s.len(),
        first_seg(s, sep) == s.take(first_seg(s, sep).len() as int),
    decreases s.len(),
{
    if s.len() == 0 {
        assert(s.take(0) =~= s);
    } else if s[0] == sep {
        assert(s.take(0) =~= Seq::<char>::empty());
    } else {
        lemma_first_seg_prefix(s.skip(1), sep);
        let r = first_seg(s, sep);
        assert(seq![s[0]] + s.skip(1).take(r.len() - 1) =~= s.take(r.len() as int));
    }
}

/// Every character kept by the punctuation filter occurs in `s`.
pub proof fn lemma_drop_punct_subset(s: Seq<char>)
    ensures
        forall|j: int| 0 <= j < drop_punct(s).len() ==> s.contains(#[trigger] drop_punct(s)[j]),
    decreases s.len(),
{
    reveal_with_fuel(Seq::filter, 2);
    if s.len() == 0 {
    } else {
        lemma_drop_punct_subset(s.drop_last());
        let r = drop_punct(s);
        let rd = drop_punct(s.drop_last());
        assert forall|j: int| 0 <= j < r.len() implies s.contains(#[trigger] r[j]) by {
            if j < rd.len() {
                assert(r[j] == rd[j]);
                let k = choose|k: int| 0 <= k < s.drop_last().len() && s.drop_last()[k] == rd[j];
                assert(s[k] == r[j]);
            } else {
                assert(r[j] == s.last());
                assert(s[s.len() - 1] == r[j]);
            }
        }
    }
}

/// A substring occurrence puts each of its characters in `s`.
pub proof fn lemma_contains_sub_char(s: Seq<char>, pat: Seq<char>, k: int)
    requires
        contains_sub(s, pat),
        0 <= k < pat.len(),
    ensures
        s.contains(pat[k]),
{
    let i = choose|i: int| occurs_at(s, pat, i);
    assert(s.subrange(i, i + pat.len() as int)[k] == pat[k]);
    assert(s[i + k] == pat[k]);
}

/// A single-character pattern occurs exactly where that character stands.
pub proof fn lemma_single_char_occurrence(s: Seq<char>, c: char)
    ensures
        contains_sub(s, seq![c]) <==> s.contains(c),
{
    if contains_sub(s, seq![c]) {
        lemma_contains_sub_char(s, seq![c], 0);
    }
    if s.contains(c) {
        let i = choose|i: int| 0 <= i < s.len() && s[i] == c;
        assert(s.subrange(i, i + 1) =~= seq![c]);
        assert(occurs_at(s, seq![c], i));
    }
}

} // verus!
