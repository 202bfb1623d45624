//! Syntax rules for a candidate host name.

use vstd::prelude::*;

use crate::text::chars_of;

verus! {

/// An ASCII letter or digit.
pub open spec fn is_alnum(c: char) -> bool {
    ('0' <= c && c <= '9') || ('a' <= c && c <= 'z') || ('A' <= c && c <= 'Z')
}

/// A character that may appear anywhere in a host name.
pub open spec fn is_name_char(c: char) -> bool {
    is_alnum(c) || c == '-' || c == '.'
}

/// Two neighbouring characters that a host name may hold: a hyphen never
/// touches a dot, and two dots never touch.
pub open spec fn allowed_pair(a: char, b: char) -> bool {
    !(a == '-' && b == '.') && !(a == '.' && b == '-') && !(a == '.' && b == '.')
}

/// The host-name syntax: non-empty, starting and ending with a letter or
/// digit, made of letters, digits, `-` and `.`, with no hyphen next to a dot
/// and no two dots in a row.
pub open spec fn valid_hostname(s: Seq<char>) -> bool {
    &&& s.len() > 0
    &&& is_alnum(s[0])
    &&& is_alnum(s[s.len() - 1])
    &&& forall|i: int| 0 <= i < s.len() ==> #[trigger] is_name_char(s[i])
    &&& forall|i: int| 0 <= i < s.len() - 1 ==> allowed_pair(#[trigger] s[i], s[i + 1])
}

pub fn is_ascii_alnum(c: char) -> (r: bool)
    ensures
        r == is_alnum(c),
{
    ('0' <= c && c <= '9') || ('a' <= c && c <= 'z') || ('A' <= c && c <= 'Z')
}

/// Whether `name` may become the host name.
pub fn check_hostname(name: String) -> (r: bool)
    ensures
        r == valid_hostname(name@),
{
    let cs = chars_of(name.as_str());
    let n = cs.len();
    if n == 0 || !is_ascii_alnum(cs[0]) || !is_ascii_alnum(cs[n - 1]) {
        return false;
    }
    let mut i: usize = 0;
    while i < n
        invariant
            cs@ == name@,
            n == cs.len(),
            0 <= i <= n,
            forall|j: int| 0 <= j < i ==> #[trigger] is_name_char(cs@[j]),
            forall|j: int| 0 <= j < i && j < n - 1 ==> allowed_pair(#[trigger] cs@[j], cs@[j + 1]),
        decreases n - i,
    {
        let c = cs[i];
        if !is_ascii_alnum(c) && c != '-' && c != '.' {
            assert(!is_name_char(name@[i as int]));
            return false;
        }
        if i + 1 < n {
            let d = cs[i + 1];
            if (c == '-' && d == '.') || (c == '.' && d == '-') || (c == '.' && d == '.') {
                assert(!allowed_pair(name@[i as int], name@[i + 1]));
                return false;
            }
        }
        i = i + 1;
    }
    true
}

} // verus!
