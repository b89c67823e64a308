//! The shapes that the fields of an entity must have.

use vstd::prelude::*;
use vstd::string::*;

verus! {
/// A digit from `0` to `9`.

pub open spec fn is_digit(c: char) -> bool {
    '0' <= c <= '9'
}
/// A lower case letter from `a` to `z`, or a digit.

pub open spec fn is_lower_alnum(c: char) -> bool {
    ('a' <= c <= 'z') || is_digit(c)
}
/// A hexadecimal digit in lower case.

pub open spec fn is_lower_hex(c: char) -> bool {
    ('a' <= c <= 'f') || is_digit(c)
}

/// A sequence of DNS labels joined by dots: each label is made of lower case
/// letters, digits and hyphens, and begins and ends with a letter or digit.
pub open spec fn is_dns_name(s: Seq<char>) -> bool {
    &&& s.len() > 0
    &&& is_lower_alnum(s[0])
    &&& is_lower_alnum(s[s.len() - 1])
    &&& forall|i: int| 0 <= i < s.len() ==> is_lower_alnum(#[trigger] s[i]) || s[i] == '-' || s[i] == '.'
    &&& forall|i: int|
        0 < i < s.len() - 1 && #[trigger] s[i] == '.' ==> is_lower_alnum(s[i - 1])
            && is_lower_alnum(s[i + 1])
}

/// The places `from..to` of `s` hold digits, and at least one.
pub open spec fn all_digits(s: Seq<char>, from: int, to: int) -> bool {
    &&& 0 <= from < to <= s.len()
    &&& forall|i: int| from <= i < to ==> is_digit(#[trigger] s[i])
}

/// The places `0..end` of `s` hold four groups of digits with dots at `a`,
/// `b` and `c` between them.
pub open spec fn dotted_quad_at(s: Seq<char>, a: int, b: int, c: int, end: int) -> bool {
    &&& all_digits(s, 0, a)
    &&& all_digits(s, a + 1, b)
    &&& all_digits(s, b + 1, c)
    &&& all_digits(s, c + 1, end)
    &&& s[a] == '.'
    &&& s[b] == '.'
    &&& s[c] == '.'
}

/// Four groups of digits joined by dots.
pub open spec fn is_ipv4(s: Seq<char>) -> bool {
    exists|a: int, b: int, c: int| dotted_quad_at(s, a, b, c, s.len() as int)
}

/// Four groups of digits joined by dots, a slash, and a group of digits.
pub open spec fn is_ipv4_net(s: Seq<char>) -> bool {
    exists|a: int, b: int, c: int, k: int|
        #[trigger] dotted_quad_at(s, a, b, c, k) && k < s.len() && s[k] == '/' && all_digits(
            s,
            k + 1,
            s.len() as int,
        )
}

/// Digits, then `M` or `G`.
pub open spec fn is_memory_size(s: Seq<char>) -> bool {
    &&& s.len() >= 2
    &&& all_digits(s, 0, s.len() - 1)
    &&& (s[s.len() - 1] == 'M' || s[s.len() - 1] == 'G')
}

/// Six pairs of lower case hexadecimal digits joined by colons.
pub open spec fn is_mac(s: Seq<char>) -> bool {
    &&& s.len() == 17
    &&& forall|i: int|
        0 <= i < 17 ==> if i % 3 == 2 {
            #[trigger] s[i] == ':'
        } else {
            is_lower_hex(s[i])
        }
}

fn digit(c: char) -> (r: bool)
    ensures
        r == is_digit(c),
{
    '0' <= c && c <= '9'
}

fn lower_alnum(c: char) -> (r: bool)
    ensures
        r == is_lower_alnum(c),
{
    ('a' <= c && c <= 'z') || digit(c)
}

fn lower_hex(c: char) -> (r: bool)
    ensures
        r == is_lower_hex(c),
{
    ('a' <= c && c <= 'f') || digit(c)
}
/// Whether a text is a sequence of DNS labels joined by dots.

pub fn matches_dns_name(s: &str) -> (r: bool)
    ensures
        r == is_dns_name(s@),
{
    let n = s.unicode_len();
    if n == 0 {
        return false;
    }
    if !lower_alnum(s.get_char(0)) || !lower_alnum(s.get_char(n - 1)) {
        return false;
    }
    let mut i: usize = 0;
    while i < n
        invariant
            0 <= i <= n,
            n == s@.len(),
            n > 0,
            forall|j: int| 0 <= j < i ==> is_lower_alnum(#[trigger] s@[j]) || s@[j] == '-' || s@[j] == '.',
            forall|j: int|
                0 < j < i && j < n - 1 && #[trigger] s@[j] == '.' ==> is_lower_alnum(s@[j - 1])
                    && is_lower_alnum(s@[j + 1]),
        decreases n - i,
    {
        let c = s.get_char(i);
        if !(lower_alnum(c) || c == '-' || c == '.') {
            return false;
        }
        if c == '.' && 0 < i && i < n - 1 {
            if !lower_alnum(s.get_char(i - 1)) || !lower_alnum(s.get_char(i + 1)) {
                return false;
            }
        }
        i = i + 1;
    }
    true
}

/// The end of the digits that begin at `from`.
fn digits_end(s: &str, n: usize, from: usize) -> (end: usize)
    requires
        n == s@.len(),
        from <= n,
    ensures
        from <= end <= n,
        forall|i: int| from <= i < end ==> is_digit(#[trigger] s@[i]),
        end < n ==> !is_digit(s@[end as int]),
{
    let mut i = from;
    while i < n
        invariant
            from <= i <= n,
            n == s@.len(),
            forall|j: int| from <= j < i ==> is_digit(#[trigger] s@[j]),
        decreases n - i,
    {
        if !digit(s.get_char(i)) {
            return i;
        }
        i = i + 1;
    }
    i
}

/// The end of the digits that begin at `from`, where a dot follows at
/// least one digit and is not the last character.
fn group_before_dot(s: &str, n: usize, from: usize) -> (r: Option<usize>)
    requires
        n == s@.len(),
        from <= n,
    ensures
        match r {
            Some(a) => all_digits(s@, from as int, a as int) && a < n && s@[a as int] == '.',
            None => forall|a: int| !(#[trigger] all_digits(s@, from as int, a) && a < n && s@[a] == '.'),
        },
{
    let a = digits_end(s, n, from);
    if a > from && a < n && s.get_char(a) == '.' {
        Some(a)
    } else {
        assert forall|x: int| !(#[trigger] all_digits(s@, from as int, x) && x < n && s@[x] == '.') by {
            if all_digits(s@, from as int, x) && x < n && s@[x] == '.' {
                if x < a {
                    assert(is_digit(s@[x]));
                } else if x > a {
                    assert(is_digit(s@[a as int]));
                }
            }
        }
        None
    }
}

/// The three dots and the end of the fourth group of a dotted quad that
/// begins `s`.
fn scan_quad(s: &str, n: usize) -> (r: Option<(usize, usize, usize, usize)>)
    requires
        n == s@.len(),
    ensures
        match r {
            Some((a, b, c, d)) => {
                &&& dotted_quad_at(s@, a as int, b as int, c as int, d as int)
                &&& d <= n
                &&& d < n ==> !is_digit(s@[d as int])
                &&& forall|a2: int, b2: int, c2: int, k: int| #[trigger]
                    dotted_quad_at(s@, a2, b2, c2, k) ==> a2 == a && b2 == b && c2 == c && k <= d
            },
            None => forall|a2: int, b2: int, c2: int, k: int|
                !#[trigger] dotted_quad_at(s@, a2, b2, c2, k),
        },
{
    let a = match group_before_dot(s, n, 0) {
        Some(a) => a,
        None => {
            return None;
        },
    };
    let b = match group_before_dot(s, n, a + 1) {
        Some(b) => b,
        None => {
            assert forall|a2: int, b2: int, c2: int, k: int|
                !#[trigger] dotted_quad_at(s@, a2, b2, c2, k) by {
                if dotted_quad_at(s@, a2, b2, c2, k) {
                    lemma_same_dot(s@, 0, a as int, a2);
                }
            }
            return None;
        },
    };
    let c = match group_before_dot(s, n, b + 1) {
        Some(c) => c,
        None => {
            assert forall|a2: int, b2: int, c2: int, k: int|
                !#[trigger] dotted_quad_at(s@, a2, b2, c2, k) by {
                if dotted_quad_at(s@, a2, b2, c2, k) {
                    lemma_same_dot(s@, 0, a as int, a2);
                    lemma_same_dot(s@, a + 1, b as int, b2);
                }
            }
            return None;
        },
    };
    let d = digits_end(s, n, c + 1);
    if d == c + 1 {
        assert forall|a2: int, b2: int, c2: int, k: int|
            !#[trigger] dotted_quad_at(s@, a2, b2, c2, k) by {
            if dotted_quad_at(s@, a2, b2, c2, k) {
                lemma_same_dot(s@, 0, a as int, a2);
                lemma_same_dot(s@, a + 1, b as int, b2);
                lemma_same_dot(s@, b + 1, c as int, c2);
                assert(is_digit(s@[c + 1]));
            }
        }
        return None;
    }
    assert forall|a2: int, b2: int, c2: int, k: int| #[trigger]
        dotted_quad_at(s@, a2, b2, c2, k) implies a2 == a && b2 == b && c2 == c && k <= d by {
        lemma_same_dot(s@, 0, a as int, a2);
        lemma_same_dot(s@, a + 1, b as int, b2);
        lemma_same_dot(s@, b + 1, c as int, c2);
        if k > d {
            assert(is_digit(s@[d as int]));
        }
    }
    Some((a, b, c, d))
}

/// Two groups of digits that begin at one place and end before a dot end at
/// one place.
proof fn lemma_same_dot(s: Seq<char>, from: int, a: int, a2: int)
    requires
        all_digits(s, from, a),
        all_digits(s, from, a2),
        a < s.len(),
        a2 < s.len(),
        s[a] == '.',
        s[a2] == '.',
    ensures
        a == a2,
{
    if a < a2 {
        assert(is_digit(s[a]));
    } else if a2 < a {
        assert(is_digit(s[a2]));
    }
}
/// Whether a text is four groups of digits joined by dots.

pub fn matches_ipv4(s: &str) -> (r: bool)
    ensures
        r == is_ipv4(s@),
{
    let n = s.unicode_len();
    match scan_quad(s, n) {
        Some((a, b, c, d)) => {
            proof {
                if d == n {
                    assert(dotted_quad_at(s@, a as int, b as int, c as int, s@.len() as int));
                }
            }
            d == n
        },
        None => false,
    }
}
/// Whether a text is four groups of digits joined by dots, a slash, and a
/// group of digits.

pub fn matches_ipv4_net(s: &str) -> (r: bool)
    ensures
        r == is_ipv4_net(s@),
{
    let n = s.unicode_len();
    match scan_quad(s, n) {
        Some((a, b, c, d)) => {
            if d < n && s.get_char(d) == '/' {
                let e = digits_end(s, n, d + 1);
                let ok = e > d + 1 && e == n;
                proof {
                    if ok {
                        assert(dotted_quad_at(s@, a as int, b as int, c as int, d as int) && d
                            < s@.len() && s@[d as int] == '/' && all_digits(
                            s@,
                            d + 1,
                            s@.len() as int,
                        ));
                    } else {
                        assert forall|a2: int, b2: int, c2: int, k: int|
                            !(#[trigger] dotted_quad_at(s@, a2, b2, c2, k) && k < s@.len() && s@[k]
                                == '/' && all_digits(s@, k + 1, s@.len() as int)) by {
                            if dotted_quad_at(s@, a2, b2, c2, k) && k < s@.len() && s@[k] == '/' {
                                if k < d {
                                    assert(is_digit(s@[k]));
                                }
                                if all_digits(s@, k + 1, s@.len() as int) {
                                    if e < n {
                                        assert(is_digit(s@[e as int]));
                                    }
                                }
                            }
                        }
                    }
                }
                ok
            } else {
                proof {
                    assert forall|a2: int, b2: int, c2: int, k: int|
                        !(#[trigger] dotted_quad_at(s@, a2, b2, c2, k) && k < s@.len() && s@[k]
                            == '/' && all_digits(s@, k + 1, s@.len() as int)) by {
                        if dotted_quad_at(s@, a2, b2, c2, k) && k < s@.len() && s@[k] == '/' {
                            if k < d {
                                assert(is_digit(s@[k]));
                            }
                        }
                    }
                }
                false
            }
        },
        None => false,
    }
}
/// Whether a text is a memory size: digits, then `M` or `G`.

pub fn matches_memory_size(s: &str) -> (r: bool)
    ensures
        r == is_memory_size(s@),
{
    let n = s.unicode_len();
    if n < 2 {
        return false;
    }
    let last = s.get_char(n - 1);
    if !(last == 'M' || last == 'G') {
        return false;
    }
    let e = digits_end(s, n, 0);
    proof {
        if e < n - 1 {
            assert(!is_digit(s@[e as int]));
        }
    }
    e >= n - 1
}
/// Whether a text is a MAC address in lower case.

pub fn matches_mac(s: &str) -> (r: bool)
    ensures
        r == is_mac(s@),
{
    let n = s.unicode_len();
    if n != 17 {
        return false;
    }
    let mut i: usize = 0;
    while i < 17
        invariant
            0 <= i <= 17,
            s@.len() == 17,
            forall|j: int|
                0 <= j < i ==> if j % 3 == 2 {
                    #[trigger] s@[j] == ':'
                } else {
                    is_lower_hex(s@[j])
                },
        decreases 17 - i,
    {
        let c = s.get_char(i);
        if i % 3 == 2 {
            if c != ':' {
                return false;
            }
        } else {
            if !lower_hex(c) {
                return false;
            }
        }
        i = i + 1;
    }
    true
}

} // verus!
