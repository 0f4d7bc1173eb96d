//! Character and string helpers shared by the address rules and the
//! endpoint resolver: ASCII case folding, whole-string equality, and the
//! first and last occurrence of a character.

use vstd::prelude::*;

verus! {

/// True when `c` is an ASCII upper-case letter.
pub open spec fn is_upper(c: char) -> bool {
    65 <= c as u32 && c as u32 <= 90
}

/// True when `c` is an ASCII lower-case letter.
pub open spec fn is_lower(c: char) -> bool {
    97 <= c as u32 && c as u32 <= 122
}

/// ASCII case folding of one character: upper-case letters move to lower
/// case, everything else stays.
pub open spec fn lower_char(c: char) -> char {
    if is_upper(c) {
        ((c as u8) + 32) as char
    } else {
        c
    }
}

/// Executable ASCII case folding, equal to [`lower_char`].
pub fn to_lower_char(c: char) -> (r: char)
    ensures
        r == lower_char(c),
{
    let u = c as u32;
    if 65 <= u && u <= 90 {
        ((c as u8) + 32) as char
    } else {
        c
    }
}

/// Whole-string equality, decided character by character.
pub fn str_eq(a: &str, b: &str) -> (r: bool)
    ensures
        r == (a@ == b@),
{
    let n = a.unicode_len();
    if n != b.unicode_len() {
        assert(a@ != b@);
        return false;
    }
    let mut i: usize = 0;
    while i < n
        invariant
            n == a@.len(),
            n == b@.len(),
            i <= n,
            forall|j: int| 0 <= j < i ==> a@[j] == b@[j],
        decreases n - i,
    {
        if a.get_char(i) != b.get_char(i) {
            return false;
        }
        i += 1;
    }
    proof {
        assert(a@ =~= b@);
    }
    true
}

/// Some character of `s` is an ASCII upper-case letter.
pub open spec fn has_upper(s: Seq<char>) -> bool {
    exists|i: int| 0 <= i < s.len() && is_upper(#[trigger] s[i])
}

/// Some character of `s` is an ASCII lower-case letter.
pub open spec fn has_lower(s: Seq<char>) -> bool {
    exists|i: int| 0 <= i < s.len() && is_lower(#[trigger] s[i])
}

/// Whether `s` holds any upper-case and any lower-case ASCII letter.
pub fn case_profile(s: &str) -> (r: (bool, bool))
    ensures
        r.0 == has_upper(s@),
        r.1 == has_lower(s@),
{
    let n = s.unicode_len();
    let mut up = false;
    let mut lo = false;
    let mut i: usize = 0;
    while i < n
        invariant
            n == s@.len(),
            i <= n,
            up <==> exists|j: int| 0 <= j < i && is_upper(#[trigger] s@[j]),
            lo <==> exists|j: int| 0 <= j < i && is_lower(#[trigger] s@[j]),
        decreases n - i,
    {
        let u = s.get_char(i) as u32;
        if 65 <= u && u <= 90 {
            up = true;
        }
        if 97 <= u && u <= 122 {
            lo = true;
        }
        i += 1;
    }
    (up, lo)
}

/// `i` is the position of the first `c` in `s`.
pub open spec fn is_first_pos(s: Seq<char>, c: char, i: int) -> bool {
    &&& 0 <= i < s.len()
    &&& s[i] == c
    &&& forall|j: int| 0 <= j < i ==> s[j] != c
}

/// `i` is the position of the last `c` in `s`.
pub open spec fn is_last_pos(s: Seq<char>, c: char, i: int) -> bool {
    &&& 0 <= i < s.len()
    &&& s[i] == c
    &&& forall|j: int| i < j < s.len() ==> s[j] != c
}

/// `s` holds `c` somewhere.
pub open spec fn has_char(s: Seq<char>, c: char) -> bool {
    exists|i: int| 0 <= i < s.len() && s[i] == c
}

/// The position of the first `c` in `s`; meaningful only under
/// [`has_char`], when [`lemma_first_pos`] shows it well defined.
pub open spec fn first_pos(s: Seq<char>, c: char) -> int {
    choose|i: int| is_first_pos(s, c, i)
}

/// The position of the last `c` in `s`; meaningful only under
/// [`has_char`], when [`lemma_last_pos`] shows it well defined.
pub open spec fn last_pos(s: Seq<char>, c: char) -> int {
    choose|i: int| is_last_pos(s, c, i)
}

/// A string that holds `c` has a unique first occurrence of it.
pub proof fn lemma_first_pos(s: Seq<char>, c: char)
    requires
        has_char(s, c),
    ensures
        is_first_pos(s, c, first_pos(s, c)),
        forall|i: int| is_first_pos(s, c, i) ==> i == first_pos(s, c),
    decreases s.len(),
{
    if s[0] == c {
        assert(is_first_pos(s, c, 0));
    } else {
        let t = s.drop_first();
        let w = choose|i: int| 0 <= i < s.len() && s[i] == c;
        assert(t[w - 1] == c);
        lemma_first_pos(t, c);
        let p = first_pos(t, c);
        assert(forall|j: int| 1 <= j < p + 1 ==> s[j] == t[j - 1] && s[j] != c);
        assert(is_first_pos(s, c, p + 1));
    }
    let k = first_pos(s, c);
    assert(is_first_pos(s, c, k));
    assert forall|i: int| is_first_pos(s, c, i) implies i == k by {
        if i < k {
            assert(s[i] == c);
        } else if k < i {
            assert(s[k] == c);
        }
    }
}

/// A string that holds `c` has a unique last occurrence of it.
pub proof fn lemma_last_pos(s: Seq<char>, c: char)
    requires
        has_char(s, c),
    ensures
        is_last_pos(s, c, last_pos(s, c)),
        forall|i: int| is_last_pos(s, c, i) ==> i == last_pos(s, c),
    decreases s.len(),
{
    let n = s.len() as int;
    if s[n - 1] == c {
        assert(is_last_pos(s, c, n - 1));
    } else {
        let t = s.drop_last();
        let w = choose|i: int| 0 <= i < s.len() && s[i] == c;
        assert(t[w] == c);
        lemma_last_pos(t, c);
        let p = last_pos(t, c);
        assert(forall|j: int| p < j < n - 1 ==> s[j] == t[j] && s[j] != c);
        assert(is_last_pos(s, c, p));
    }
    let k = last_pos(s, c);
    assert(is_last_pos(s, c, k));
    assert forall|i: int| is_last_pos(s, c, i) implies i == k by {
        if i < k {
            assert(s[k] == c);
        } else if k < i {
            assert(s[i] == c);
        }
    }
}

/// Finds the first occurrence of `c` in `s`, scanning forward.
pub fn find_first(s: &str, c: char) -> (r: Option<usize>)
    ensures
        match r {
            Some(i) => has_char(s@, c) && is_first_pos(s@, c, i as int),
            None => !has_char(s@, c),
        },
{
    let n = s.unicode_len();
    let mut i: usize = 0;
    while i < n
        invariant
            n == s@.len(),
            i <= n,
            forall|j: int| 0 <= j < i ==> s@[j] != c,
        decreases n - i,
    {
        if s.get_char(i) == c {
            return Some(i);
        }
        i += 1;
    }
    None
}

/// Finds the last occurrence of `c` in `s`, scanning backward.
pub fn find_last(s: &str, c: char) -> (r: Option<usize>)
    ensures
        match r {
            Some(i) => has_char(s@, c) && is_last_pos(s@, c, i as int),
            None => !has_char(s@, c),
        },
{
    let n = s.unicode_len();
    let mut i: usize = n;
    while i > 0
        invariant
            n == s@.len(),
            i <= n,
            forall|j: int| i <= j < n ==> s@[j] != c,
        decreases i,
    {
        i -= 1;
        if s.get_char(i) == c {
            return Some(i);
        }
    }
    None
}

} // verus!
