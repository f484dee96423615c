//! Which decoded entry names are safe to use as relative paths.
use vstd::prelude::*;

verus! {

/// A path separator on any of the platforms an archive may come from.
pub open spec fn is_separator(c: char) -> bool {
    c == '/' || c == '\\'
}

/// The name starts at a root or a drive (`/etc`, `\x`, `C:x`).
pub open spec fn is_absolute_name(s: Seq<char>) -> bool {
    (s.len() > 0 && is_separator(s[0])) || (s.len() >= 2 && s[1] == ':')
}

/// A `..` segment starts at index `i` of the name.
pub open spec fn parent_segment_at(s: Seq<char>, i: int) -> bool {
    &&& 0 <= i
    &&& i + 1 < s.len()
    &&& s[i] == '.'
    &&& s[i + 1] == '.'
    &&& (i == 0 || is_separator(s[i - 1]))
    &&& (i + 2 == s.len() || is_separator(s[i + 2]))
}

/// The name has a `..` segment somewhere.
pub open spec fn has_parent_segment(s: Seq<char>) -> bool {
    exists|i: int| #[trigger] parent_segment_at(s, i)
}

/// The name holds a NUL character.
pub open spec fn has_nul(s: Seq<char>) -> bool {
    exists|i: int| 0 <= i < s.len() && #[trigger] s[i] == '\0'
}

/// A name is safe when, read as a path, it stays below the directory it is
/// extracted into: it is not absolute, has no `..` segment and no NUL.
pub open spec fn is_safe_name(s: Seq<char>) -> bool {
    !is_absolute_name(s) && !has_parent_segment(s) && !has_nul(s)
}

fn is_sep(c: char) -> (r: bool)
    ensures
        r == is_separator(c),
{
    c == '/' || c == '\\'
}

/// The characters of `s`, in order.
fn chars_of(s: &str) -> (r: Vec<char>)
    ensures
        r@ == s@,
{
    let mut v: Vec<char> = Vec::new();
    for c in it: s.chars()
        invariant
            v@ == it.seq().take(it.index() as int),
    {
        v.push(c);
    }
    v
}

/// Whether `name` is safe to use as a relative path.
pub fn is_safe_entry_name(name: &str) -> (r: bool)
    ensures
        r == is_safe_name(name@),
{
    let s = chars_of(name);
    let n = s.len();
    if (n > 0 && is_sep(s[0])) || (n >= 2 && s[1] == ':') {
        return false;
    }
    let mut i: usize = 0;
    while i < n
        invariant
            s@ == name@,
            n == s.len(),
            i <= n,
            forall|j: int| 0 <= j < i ==> s@[j] != '\0',
            forall|j: int| 0 <= j < i ==> !parent_segment_at(s@, j),
        decreases n - i,
    {
        if s[i] == '\0' {
            assert(s@[i as int] == '\0');
            return false;
        }
        if i + 1 < n && s[i] == '.' && s[i + 1] == '.' && (i == 0 || is_sep(s[i - 1])) && (i + 2
            == n || is_sep(s[i + 2])) {
            assert(parent_segment_at(s@, i as int));
            return false;
        }
        i = i + 1;
    }
    assert(!has_parent_segment(s@)) by {
        assert forall|j: int| !parent_segment_at(s@, j) by {
            if 0 <= j && j < n {
            }
        }
    }
    true
}

} // verus!
