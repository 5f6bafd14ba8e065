//! Character-sequence helpers: ASCII lowercasing, character search and
//! substring search, with exact specifications over `Seq<char>`.

use vstd::prelude::*;

verus! {

// ---------------------------------------------------------------------------
// ASCII lowercasing
// ---------------------------------------------------------------------------

/// ASCII-lowercase of one character: 'A'..='Z' map to 'a'..='z', every other
/// character is unchanged.
pub open spec fn lower_char(c: char) -> char {
    if 65 <= c as int && c as int <= 90 {
        ((c as int) + 32) as char
    } else {
        c
    }
}

/// ASCII-lowercase of a whole character sequence.
pub open spec fn lower_seq(s: Seq<char>) -> Seq<char> {
    s.map_values(|c: char| lower_char(c))
}

/// Relies on `str::to_ascii_lowercase`: ASCII letters 'A' to 'Z' are mapped to
/// 'a' to 'z', all other characters are unchanged.
#[verifier::external_body]
pub(crate) fn ascii_lower_str(s: &str) -> (r: String)
    ensures
        r@ == lower_seq(s@),
{
    s.to_ascii_lowercase()
}

/// Relies on `String::push`: appends the given character to the end of the
/// string.
#[verifier::external_body]
pub(crate) fn push_char(s: &mut String, c: char)
    ensures
        final(s)@ == old(s)@.push(c),
{
    s.push(c);
}

// ---------------------------------------------------------------------------
// Equality of strings
// ---------------------------------------------------------------------------

/// Character-for-character string equality.
pub fn str_eq(a: &str, b: &str) -> (r: bool)
    ensures
        r == (a@ == b@),
{
    let al = a.unicode_len();
    let bl = b.unicode_len();
    if al != bl {
        return false;
    }
    let mut i: usize = 0;
    while i < al
        invariant
            al == a@.len(),
            bl == b@.len(),
            al == bl,
            i <= al,
            forall|j: int| 0 <= j < i ==> a@[j] == b@[j],
        decreases al - i,
    {
        if a.get_char(i) != b.get_char(i) {
            return false;
        }
        i += 1;
    }
    proof {
        assert(a@ =~= b@);
    }
    true
}

// ---------------------------------------------------------------------------
// Finding a single character
// ---------------------------------------------------------------------------

/// Index of the first occurrence of `c` in `s` at or after position `i`.
pub open spec fn find_char_from(s: Seq<char>, c: char, i: int) -> Option<int>
    decreases s.len() - i,
{
    if i < 0 || i >= s.len() {
        None
    } else if s[i] == c {
        Some(i)
    } else {
        find_char_from(s, c, i + 1)
    }
}

/// Index of the first occurrence of `c` in `s`.
pub open spec fn find_char_spec(s: Seq<char>, c: char) -> Option<int> {
    find_char_from(s, c, 0)
}

/// Whether `s` holds the character `c` anywhere.
pub open spec fn contains_char(s: Seq<char>, c: char) -> bool {
    exists|i: int| 0 <= i < s.len() && s[i] == c
}

pub proof fn lemma_find_char_from(s: Seq<char>, c: char, i: int)
    requires
        0 <= i <= s.len(),
    ensures
        (find_char_from(s, c, i) is Some) <==> exists|j: int| i <= j < s.len() && s[j] == c,
        find_char_from(s, c, i) matches Some(k) ==> i <= k < s.len() && s[k] == c,
    decreases s.len() - i,
{
    if i < s.len() && s[i] != c {
        lemma_find_char_from(s, c, i + 1);
        if exists|j: int| i <= j < s.len() && s[j] == c {
            let j = choose|j: int| i <= j < s.len() && s[j] == c;
            assert(i + 1 <= j < s.len() && s[j] == c);
        }
    }
}

/// A first occurrence exists exactly when some occurrence exists.
pub proof fn lemma_find_char_contains(s: Seq<char>, c: char)
    ensures
        (find_char_spec(s, c) is Some) <==> contains_char(s, c),
{
    lemma_find_char_from(s, c, 0);
}

/// First occurrence of a character, by a linear scan.
pub fn find_char(s: &str, c: char) -> (r: Option<usize>)
    ensures
        match r {
            Some(i) => find_char_spec(s@, c) == Some(i as int),
            None => find_char_spec(s@, c) is None,
        },
{
    let n = s.unicode_len();
    let mut i: usize = 0;
    while i < n
        invariant
            n == s@.len(),
            i <= n,
            find_char_from(s@, c, 0) == find_char_from(s@, c, i as int),
        decreases n - i,
    {
        if s.get_char(i) == c {
            return Some(i);
        }
        i += 1;
    }
    None
}

// ---------------------------------------------------------------------------
// Finding a substring
// ---------------------------------------------------------------------------

/// `n` occurs in `h` starting at position `i`.
pub open spec fn match_at(h: Seq<char>, n: Seq<char>, i: int) -> bool {
    0 <= i && i + n.len() <= h.len() && h.subrange(i, i + n.len() as int) == n
}

/// Index of the first occurrence of `n` in `h` at or after position `i`.
pub open spec fn find_sub_from(h: Seq<char>, n: Seq<char>, i: int) -> Option<int>
    decreases h.len() - i + 1,
{
    if i < 0 || i + n.len() > h.len() {
        None
    } else if h.subrange(i, i + n.len() as int) == n {
        Some(i)
    } else {
        find_sub_from(h, n, i + 1)
    }
}

/// Index of the first occurrence of `n` in `h`.
pub open spec fn find_sub_spec(h: Seq<char>, n: Seq<char>) -> Option<int> {
    find_sub_from(h, n, 0)
}

/// Whether `n` occurs anywhere in `h`.
pub open spec fn contains_seq(h: Seq<char>, n: Seq<char>) -> bool {
    exists|i: int| match_at(h, n, i)
}

pub proof fn lemma_find_sub_from(h: Seq<char>, n: Seq<char>, i: int)
    requires
        0 <= i,
    ensures
        (find_sub_from(h, n, i) is Some) <==> exists|j: int| i <= j && match_at(h, n, j),
        find_sub_from(h, n, i) matches Some(k) ==> i <= k && match_at(h, n, k) && (forall|j: int|
            i <= j < k ==> !match_at(h, n, j)),
    decreases h.len() - i + 1,
{
    if i + n.len() > h.len() {
        if exists|j: int| i <= j && match_at(h, n, j) {
            let j = choose|j: int| i <= j && match_at(h, n, j);
            assert(j + n.len() <= h.len());
            assert(false);
        }
    } else if h.subrange(i, i + n.len() as int) == n {
        assert(match_at(h, n, i));
    } else {
        lemma_find_sub_from(h, n, i + 1);
        assert(!match_at(h, n, i));
        if exists|j: int| i <= j && match_at(h, n, j) {
            let j = choose|j: int| i <= j && match_at(h, n, j);
            assert(i + 1 <= j && match_at(h, n, j));
        }
    }
}

/// A first occurrence exists exactly when some occurrence exists, and nothing
/// earlier matches.
pub proof fn lemma_find_sub_contains(h: Seq<char>, n: Seq<char>)
    ensures
        (find_sub_spec(h, n) is Some) <==> contains_seq(h, n),
        find_sub_spec(h, n) matches Some(i) ==> match_at(h, n, i) && (forall|j: int|
            0 <= j < i ==> !match_at(h, n, j)),
{
    lemma_find_sub_from(h, n, 0);
}

/// `n` matches the characters of `h` starting at position `i`.
fn is_match_at(h: &str, n: &str, i: usize) -> (r: bool)
    requires
        i + n@.len() <= h@.len(),
        h@.len() <= usize::MAX,
    ensures
        r == (h@.subrange(i as int, i as int + n@.len() as int) == n@),
{
    let nl = n.unicode_len();
    let mut j: usize = 0;
    while j < nl
        invariant
            nl == n@.len(),
            i + nl <= h@.len() <= usize::MAX,
            j <= nl,
            forall|k: int| 0 <= k < j ==> h@[i + k] == n@[k],
        decreases nl - j,
    {
        if h.get_char(i + j) != n.get_char(j) {
            proof {
                assert(h@.subrange(i as int, i as int + n@.len() as int)[j as int] == h@[i + j]);
            }
            return false;
        }
        j += 1;
    }
    proof {
        assert(h@.subrange(i as int, i as int + n@.len() as int) =~= n@);
    }
    true
}

/// First occurrence of the string `n` inside `h`, by a linear scan.
pub fn find_sub(h: &str, n: &str) -> (r: Option<usize>)
    ensures
        match r {
            Some(i) => find_sub_spec(h@, n@) == Some(i as int),
            None => find_sub_spec(h@, n@) is None,
        },
{
    let hl = h.unicode_len();
    let nl = n.unicode_len();
    if nl > hl {
        return None;
    }
    if nl == 0 {
        proof {
            assert(h@.subrange(0, 0) =~= n@);
        }
        return Some(0);
    }
    let mut i: usize = 0;
    while i <= hl - nl
        invariant
            hl == h@.len(),
            nl == n@.len(),
            1 <= nl <= hl,
            i <= hl - nl + 1,
            find_sub_from(h@, n@, 0) == find_sub_from(h@, n@, i as int),
        decreases hl - nl - i + 1,
    {
        if is_match_at(h, n, i) {
            return Some(i);
        }
        i += 1;
    }
    None
}

} // verus!

