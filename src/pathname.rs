//! A small model of textual paths: components are the maximal runs of
//! non-separator characters, read from the end of the text.

use vstd::prelude::*;

verus! {

/// The operating-system family whose path conventions apply.
#[derive(Clone, Copy, Debug, PartialEq, Eq, Structural)]
pub enum Platform {
    Posix,
    Windows,
}

pub open spec fn is_separator(platform: Platform, c: char) -> bool {
    c == '/' || (platform == Platform::Windows && c == '\\')
}

/// The separator written when a component is appended.
pub open spec fn separator_of(platform: Platform) -> char {
    if platform == Platform::Windows {
        '\\'
    } else {
        '/'
    }
}

/// The end of `p[0..end)` once trailing separators are dropped.
pub open spec fn trimmed_end(platform: Platform, p: Seq<char>, end: int) -> int
    decreases end,
{
    if end <= 0 {
        0
    } else if is_separator(platform, p[end - 1]) {
        trimmed_end(platform, p, end - 1)
    } else {
        end
    }
}

/// The index of the last separator in `p[0..end)`, or -1 where there is none.
pub open spec fn last_separator(platform: Platform, p: Seq<char>, end: int) -> int
    decreases end,
{
    if end <= 0 {
        -1
    } else if is_separator(platform, p[end - 1]) {
        end - 1
    } else {
        last_separator(platform, p, end - 1)
    }
}

/// The last component of the path written in `p[0..end)` (empty where it has none).
pub open spec fn component_before(platform: Platform, p: Seq<char>, end: int) -> Seq<char> {
    let e = trimmed_end(platform, p, end);
    p.subrange(last_separator(platform, p, e) + 1, e)
}

/// The base name of a path.
pub open spec fn file_name(platform: Platform, p: Seq<char>) -> Seq<char> {
    component_before(platform, p, p.len() as int)
}

/// Where the parent of a path ends in its text.
pub open spec fn parent_end(platform: Platform, p: Seq<char>) -> int {
    let s = last_separator(platform, p, trimmed_end(platform, p, p.len() as int));
    if s < 0 {
        0
    } else {
        s
    }
}

/// The base name of a path's parent directory (empty where there is none).
pub open spec fn parent_name(platform: Platform, p: Seq<char>) -> Seq<char> {
    component_before(platform, p, parent_end(platform, p))
}

/// `leaf` appended to `base` as one more component.
pub open spec fn joined(platform: Platform, base: Seq<char>, leaf: Seq<char>) -> Seq<char> {
    if base.len() == 0 {
        leaf
    } else if is_separator(platform, base.last()) {
        base + leaf
    } else {
        base + seq![separator_of(platform)] + leaf
    }
}

proof fn lemma_trimmed_end_bounds(platform: Platform, p: Seq<char>, end: int)
    requires
        0 <= end,
    ensures
        0 <= trimmed_end(platform, p, end) <= end,
    decreases end,
{
    if end > 0 && is_separator(platform, p[end - 1]) {
        lemma_trimmed_end_bounds(platform, p, end - 1);
    }
}

proof fn lemma_last_separator_bounds(platform: Platform, p: Seq<char>, end: int)
    requires
        0 <= end,
    ensures
        -1 <= last_separator(platform, p, end) < end,
    decreases end,
{
    if end > 0 && !is_separator(platform, p[end - 1]) {
        lemma_last_separator_bounds(platform, p, end - 1);
    }
}

pub fn is_separator_char(platform: Platform, c: char) -> (r: bool)
    ensures
        r == is_separator(platform, c),
{
    c == '/' || (matches!(platform, Platform::Windows) && c == '\\')
}

/// The characters of `s`, one by one.
pub fn chars_of(s: &str) -> (r: Vec<char>)
    ensures
        r@ == s@,
{
    let n = s.unicode_len();
    let mut r: Vec<char> = Vec::new();
    let mut i: usize = 0;
    while i < n
        invariant
            n == s@.len(),
            i <= n,
            r@ == s@.subrange(0, i as int),
        decreases n - i,
    {
        r.push(s.get_char(i));
        i = i + 1;
        assert(r@ =~= s@.subrange(0, i as int));
    }
    assert(r@ =~= s@);
    r
}

fn trimmed_end_of(platform: Platform, p: &Vec<char>, end: usize) -> (r: usize)
    requires
        end <= p.len(),
    ensures
        r == trimmed_end(platform, p@, end as int),
{
    let mut e = end;
    while e > 0 && is_separator_char(platform, p[e - 1])
        invariant
            e <= end <= p.len(),
            trimmed_end(platform, p@, e as int) == trimmed_end(platform, p@, end as int),
        decreases e,
    {
        e = e - 1;
    }
    e
}

/// One past the last separator in `p[0..end)`, or 0 where there is none.
fn after_last_separator(platform: Platform, p: &Vec<char>, end: usize) -> (r: usize)
    requires
        end <= p.len(),
    ensures
        r == last_separator(platform, p@, end as int) + 1,
{
    let mut e = end;
    while e > 0 && !is_separator_char(platform, p[e - 1])
        invariant
            e <= end <= p.len(),
            last_separator(platform, p@, e as int) == last_separator(platform, p@, end as int),
        decreases e,
    {
        e = e - 1;
    }
    e
}

pub fn range_equals(p: &Vec<char>, lo: usize, hi: usize, q: &Vec<char>) -> (r: bool)
    requires
        lo <= hi <= p.len(),
    ensures
        r == (p@.subrange(lo as int, hi as int) == q@),
{
    if hi - lo != q.len() {
        assert(p@.subrange(lo as int, hi as int).len() != q@.len());
        return false;
    }
    let mut i: usize = 0;
    while i < q.len()
        invariant
            lo <= hi <= p.len(),
            hi - lo == q.len(),
            i <= q.len(),
            forall|k: int| 0 <= k < i ==> p@[lo + k] == q@[k],
        decreases q.len() - i,
    {
        if p[lo + i] != q[i] {
            assert(p@.subrange(lo as int, hi as int)[i as int] != q@[i as int]);
            return false;
        }
        i = i + 1;
    }
    assert(p@.subrange(lo as int, hi as int) =~= q@);
    true
}

fn component_before_is(platform: Platform, p: &Vec<char>, end: usize, name: &str) -> (r: bool)
    requires
        end <= p.len(),
    ensures
        r == (component_before(platform, p@, end as int) == name@),
{
    let e = trimmed_end_of(platform, p, end);
    proof {
        lemma_trimmed_end_bounds(platform, p@, end as int);
    }
    let s = after_last_separator(platform, p, e);
    proof {
        lemma_last_separator_bounds(platform, p@, e as int);
    }
    let expected = chars_of(name);
    range_equals(p, s, e, &expected)
}

/// Whether the base name of `path` is `name`.
pub fn file_name_is(platform: Platform, path: &str, name: &str) -> (r: bool)
    ensures
        r == (file_name(platform, path@) == name@),
{
    let p = chars_of(path);
    component_before_is(platform, &p, p.len(), name)
}

/// Whether the base name of the parent directory of `path` is `name`.
pub fn parent_name_is(platform: Platform, path: &str, name: &str) -> (r: bool)
    ensures
        r == (parent_name(platform, path@) == name@),
{
    let p = chars_of(path);
    let e = trimmed_end_of(platform, &p, p.len());
    proof {
        lemma_trimmed_end_bounds(platform, p@, p.len() as int);
    }
    let s = after_last_separator(platform, &p, e);
    proof {
        lemma_last_separator_bounds(platform, p@, e as int);
    }
    let parent = if s == 0 {
        0
    } else {
        s - 1
    };
    component_before_is(platform, &p, parent, name)
}

/// `leaf` appended to `base` as one more path component.
pub fn join(platform: Platform, base: &str, leaf: &str) -> (r: String)
    ensures
        r@ == joined(platform, base@, leaf@),
{
    let n = base.unicode_len();
    if n == 0 {
        return String::from_str(leaf);
    }
    let mut r = String::from_str(base);
    if !is_separator_char(platform, base.get_char(n - 1)) {
        match platform {
            Platform::Windows => {
                proof {
                    reveal_strlit("\\");
                }
                r.append("\\");
            },
            Platform::Posix => {
                proof {
                    reveal_strlit("/");
                }
                r.append("/");
            },
        }
    }
    r.append(leaf);
    assert(r@ =~= joined(platform, base@, leaf@));
    r
}

} // verus!
