//! Small verified string helpers shared by the other modules.

use vstd::prelude::*;
use vstd::string::*;

verus! {

/// Character-wise equality of two strings.
pub fn same_text(a: &str, b: &str) -> (r: bool)
    ensures
        r == (a@ == b@),
{
    let n = a.unicode_len();
    if n != b.unicode_len() {
        return false;
    }
    let mut i: usize = 0;
    while i < n
        invariant
            n == a@.len(),
            n == b@.len(),
            i <= n,
            forall|j: int| 0 <= j < i ==> a@[j] == b@[j],
        decreases n - i,
    {
        if a.get_char(i) != b.get_char(i) {
            return false;
        }
        i = i + 1;
    }
    assert(a@ =~= b@);
    true
}

/// A copy of an optional string.
pub fn copy_opt(o: &Option<String>) -> (r: Option<String>)
    ensures
        opt_text(r) == opt_text(*o),
{
    match o {
        Some(s) => Some(s.clone()),
        None => None,
    }
}

/// The characters of an optional string.
pub open spec fn opt_text(o: Option<String>) -> Option<Seq<char>> {
    match o {
        Some(s) => Some(s@),
        None => None,
    }
}

/// `a` followed by `b`, as a new string.
pub fn join2(a: &str, b: &str) -> (r: String)
    ensures
        r@ == a@ + b@,
{
    let mut s = String::from_str(a);
    s.append(b);
    s
}

/// `c` equals the lower-case ASCII character `l`, ignoring ASCII case.
pub open spec fn char_eq_ci(c: char, l: char) -> bool {
    c == l || ('A' <= c <= 'Z' && c as u32 + 32 == l as u32)
}

/// `s` equals `lower` (written in lower case), ignoring ASCII case.
pub open spec fn text_eq_ci(s: Seq<char>, lower: Seq<char>) -> bool {
    s.len() == lower.len() && forall|i: int| 0 <= i < s.len() ==> char_eq_ci(s[i], lower[i])
}

/// `lower` occurs in `s` at position `k`, ignoring ASCII case.
pub open spec fn occurs_ci_at(s: Seq<char>, lower: Seq<char>, k: int) -> bool {
    0 <= k && k + lower.len() <= s.len() && forall|j: int|
        0 <= j < lower.len() ==> char_eq_ci(#[trigger] s[k + j], lower[j])
}

/// `lower` occurs somewhere in `s`, ignoring ASCII case.
pub open spec fn contains_ci(s: Seq<char>, lower: Seq<char>) -> bool {
    exists|k: int| occurs_ci_at(s, lower, k)
}

fn char_matches_ci(c: char, l: char) -> (r: bool)
    ensures
        r == char_eq_ci(c, l),
{
    c == l || ('A' <= c && c <= 'Z' && (c as u32) + 32 == (l as u32))
}

fn occurs_at(s: &str, lower: &str, k: usize, n: usize, m: usize) -> (r: bool)
    requires
        n == s@.len(),
        m == lower@.len(),
        k + m <= n,
    ensures
        r == occurs_ci_at(s@, lower@, k as int),
{
    let mut j: usize = 0;
    while j < m
        invariant
            n == s@.len(),
            m == lower@.len(),
            k + m <= n,
            j <= m,
            forall|i: int| 0 <= i < j ==> char_eq_ci(#[trigger] s@[k + i], lower@[i]),
        decreases m - j,
    {
        if !char_matches_ci(s.get_char(k + j), lower.get_char(j)) {
            return false;
        }
        j = j + 1;
    }
    true
}

/// Whether `s` equals `lower`, ignoring ASCII case.
pub fn eq_ignore_case(s: &str, lower: &str) -> (r: bool)
    ensures
        r == text_eq_ci(s@, lower@),
{
    let n = s.unicode_len();
    let m = lower.unicode_len();
    if n != m {
        return false;
    }
    let r = occurs_at(s, lower, 0, n, m);
    proof {
        if r {
            assert forall|i: int| 0 <= i < s@.len() implies char_eq_ci(s@[i], lower@[i]) by {
                assert(char_eq_ci(s@[0 + i], lower@[i]));
            }
        } else {
            if text_eq_ci(s@, lower@) {
                assert forall|j: int| 0 <= j < lower@.len() implies char_eq_ci(
                    #[trigger] s@[0 + j],
                    lower@[j],
                ) by {
                    assert(s@[0 + j] == s@[j]);
                }
            }
        }
    }
    r
}

/// Whether `lower` occurs in `s`, ignoring ASCII case.
pub fn find_ignore_case(s: &str, lower: &str) -> (r: bool)
    ensures
        r == contains_ci(s@, lower@),
{
    let n = s.unicode_len();
    let m = lower.unicode_len();
    if m > n {
        return false;
    }
    let mut k: usize = 0;
    while k <= n - m
        invariant
            n == s@.len(),
            m == lower@.len(),
            m <= n,
            k <= n - m + 1,
            forall|i: int| 0 <= i < k ==> !occurs_ci_at(s@, lower@, i),
        decreases n - m + 1 - k,
    {
        if occurs_at(s, lower, k, n, m) {
            return true;
        }
        k = k + 1;
    }
    proof {
        assert forall|i: int| !occurs_ci_at(s@, lower@, i) by {
            if 0 <= i < k {
            }
        }
    }
    false
}

/// An ASCII blank: space, tab, line feed or carriage return.
pub open spec fn is_blank(c: char) -> bool {
    c == ' ' || c == '\t' || c == '\n' || c == '\r'
}

/// `s` is `t` surrounded by blanks only.
pub open spec fn blank_padded(s: Seq<char>, t: Seq<char>) -> bool {
    exists|a: int, b: int|
        0 <= a <= b <= s.len() && s.subrange(a, b) == t && (forall|i: int|
            0 <= i < a ==> is_blank(#[trigger] s[i])) && (forall|i: int|
            b <= i < s.len() ==> is_blank(#[trigger] s[i]))
}

/// Whether `s` is a single `0` with blanks around it.
pub fn is_padded_zero(s: &str) -> (r: bool)
    ensures
        r == blank_padded(s@, seq!['0']),
{
    let n = s.unicode_len();
    let mut a: usize = 0;
    while a < n && is_blank_char(s.get_char(a))
        invariant
            n == s@.len(),
            a <= n,
            forall|i: int| 0 <= i < a ==> is_blank(#[trigger] s@[i]),
        decreases n - a,
    {
        a = a + 1;
    }
    if a >= n || s.get_char(a) != '0' {
        proof {
            if blank_padded(s@, seq!['0']) {
                let (x, y) = choose|x: int, y: int|
                    0 <= x <= y <= s@.len() && s@.subrange(x, y) == seq!['0'] && (forall|i: int|
                        0 <= i < x ==> is_blank(#[trigger] s@[i])) && (forall|i: int|
                        y <= i < s@.len() ==> is_blank(#[trigger] s@[i]));
                assert(s@.subrange(x, y).len() == 1);
                assert(s@[x] == s@.subrange(x, y)[0]);
                if x < a {
                    assert(is_blank(s@[x]));
                } else if x > a {
                    assert(is_blank(s@[a as int]));
                }
            }
        }
        return false;
    }
    let mut b: usize = a + 1;
    while b < n
        invariant
            n == s@.len(),
            a < b <= n,
            s@[a as int] == '0',
            forall|i: int| a < i < b ==> is_blank(#[trigger] s@[i]),
        decreases n - b,
    {
        if !is_blank_char(s.get_char(b)) {
            proof {
                if blank_padded(s@, seq!['0']) {
                    let (x, y) = choose|x: int, y: int|
                        0 <= x <= y <= s@.len() && s@.subrange(x, y) == seq!['0'] && (forall|
                            i: int,
                        | 0 <= i < x ==> is_blank(#[trigger] s@[i])) && (forall|i: int|
                            y <= i < s@.len() ==> is_blank(#[trigger] s@[i]));
                    assert(s@.subrange(x, y).len() == 1);
                    assert(s@[x] == s@.subrange(x, y)[0]);
                    assert(!is_blank(s@[a as int]));
                    assert(!is_blank(s@[b as int]));
                }
            }
            return false;
        }
        b = b + 1;
    }
    proof {
        assert(s@.subrange(a as int, a + 1) =~= seq!['0']);
    }
    true
}

fn is_blank_char(c: char) -> (r: bool)
    ensures
        r == is_blank(c),
{
    c == ' ' || c == '\t' || c == '\n' || c == '\r'
}

/// A line terminator character.
pub open spec fn is_eol(c: char) -> bool {
    c == '\n' || c == '\r'
}

/// `s` without its trailing line terminators.
pub open spec fn strip_eol(s: Seq<char>) -> Seq<char>
    decreases s.len(),
{
    if s.len() > 0 && is_eol(s.last()) {
        strip_eol(s.drop_last())
    } else {
        s
    }
}

/// `s` without its trailing line terminators.
pub fn without_eol(s: &str) -> (r: String)
    ensures
        r@ == strip_eol(s@),
{
    let mut n = s.unicode_len();
    assert(s@.subrange(0, n as int) =~= s@);
    while n > 0 && (s.get_char(n - 1) == '\n' || s.get_char(n - 1) == '\r')
        invariant
            n <= s@.len(),
            strip_eol(s@) == strip_eol(s@.subrange(0, n as int)),
        decreases n,
    {
        proof {
            assert(s@.subrange(0, n as int).drop_last() =~= s@.subrange(0, n - 1));
        }
        n = n - 1;
    }
    proof {
        assert(strip_eol(s@.subrange(0, n as int)) == s@.subrange(0, n as int));
    }
    String::from_str(s.substring_char(0, n))
}

} // verus!
