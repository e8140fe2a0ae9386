//! Paths as text, joined the way a Unix path buffer joins them.

use vstd::prelude::*;
use crate::text::{starts_with_char, ends_with_char, str_eq};

verus! {

/// `base` joined with `name`: an absolute `name` replaces `base`; otherwise `name` follows
/// `base`, with a `/` between them unless `base` is empty or already ends with one.
pub open spec fn path_join(base: Seq<char>, name: Seq<char>) -> Seq<char> {
    if name.len() > 0 && name[0] == '/' {
        name
    } else if base.len() == 0 || base.last() == '/' {
        base + name
    } else {
        base + "/"@ + name
    }
}

/// `base` joined with `name`, see `path_join`.
pub fn join(base: &str, name: &str) -> (p: String)
    ensures
        p@ == path_join(base@, name@),
{
    if starts_with_char(name, '/') {
        return name.to_owned();
    }
    let mut p = base.to_owned();
    if !(base.unicode_len() == 0 || ends_with_char(base, '/')) {
        p.append("/");
    }
    p.append(name);
    p
}

/// `name` without the `/` characters it starts with.
pub open spec fn without_leading_slashes(name: Seq<char>) -> Seq<char>
    decreases name.len(),
{
    if name.len() > 0 && name[0] == '/' {
        without_leading_slashes(name.subrange(1, name.len() as int))
    } else {
        name
    }
}

/// A name without leading `/` does not start with one.
pub proof fn lemma_without_leading_slashes(name: Seq<char>)
    ensures
        !(without_leading_slashes(name).len() > 0 && without_leading_slashes(name)[0] == '/'),
    decreases name.len(),
{
    if name.len() > 0 && name[0] == '/' {
        lemma_without_leading_slashes(name.subrange(1, name.len() as int));
    }
}

/// `name` without the `/` characters it starts with.
pub fn strip_leading_slashes(name: &str) -> (r: &str)
    ensures
        r@ == without_leading_slashes(name@),
{
    let n = name.unicode_len();
    let mut i: usize = 0;
    assert(name@.subrange(0, n as int) =~= name@);
    while i < n && name.get_char(i) == '/'
        invariant
            n == name@.len(),
            i <= n,
            without_leading_slashes(name@) == without_leading_slashes(name@.subrange(i as int, n as int)),
        decreases n - i,
    {
        assert(name@.subrange(i as int, n as int).subrange(1, (n - i) as int) =~= name@.subrange(i + 1, n as int));
        i = i + 1;
    }
    assert(name@.subrange(0, n as int) =~= name@);
    name.substring_char(i, n)
}

/// The text after the last `/` of `p` (all of `p` when it has none).
pub open spec fn last_segment(p: Seq<char>) -> Seq<char>
    decreases p.len(),
{
    if p.len() == 0 || p.last() == '/' {
        Seq::empty()
    } else {
        last_segment(p.drop_last()).push(p.last())
    }
}

/// The last component of a path, as a Unix path buffer's file name: trailing `/` and `.`
/// components are skipped; empty when the last component is `..` or there is none.
pub open spec fn path_file_name(p: Seq<char>) -> Seq<char>
    decreases p.len(),
{
    if p.len() > 0 && p.last() == '/' {
        path_file_name(p.drop_last())
    } else if p.len() >= 2 && p.last() == '.' && p[p.len() - 2] == '/' {
        path_file_name(p.drop_last().drop_last())
    } else if last_segment(p) == "."@ || last_segment(p) == ".."@ {
        Seq::empty()
    } else {
        last_segment(p)
    }
}

/// Whether the first component of a path is `http:`.
pub open spec fn is_http_root(p: Seq<char>) -> bool {
    &&& p.len() >= 5
    &&& p.subrange(0, 5) == "http:"@
    &&& (p.len() == 5 || p[5] == '/')
}

/// Whether the first component of `p` is `http:`.
pub fn http_root(p: &str) -> (r: bool)
    ensures
        r == is_http_root(p@),
{
    proof { reveal_strlit("http:"); }
    let n = p.unicode_len();
    if n < 5 {
        return false;
    }
    let head = p.substring_char(0, 5);
    if !str_eq(head, "http:") {
        return false;
    }
    n == 5 || p.get_char(5) == '/'
}

/// The last component of `p`, see `path_file_name`.
pub fn file_name(p: &str) -> (r: &str)
    ensures
        r@ == path_file_name(p@),
{
    let n = p.unicode_len();
    let mut end: usize = n;
    assert(p@.subrange(0, n as int) =~= p@);
    loop
        invariant
            n == p@.len(),
            end <= n,
            path_file_name(p@) == path_file_name(p@.subrange(0, end as int)),
        ensures
            end <= n,
            path_file_name(p@) == path_file_name(p@.subrange(0, end as int)),
            !(end > 0 && p@[end - 1] == '/'),
            !(end >= 2 && p@[end - 1] == '.' && p@[end - 2] == '/'),
        decreases end,
    {
        let q = Ghost(p@.subrange(0, end as int));
        if end > 0 && p.get_char(end - 1) == '/' {
            assert(q@.drop_last() =~= p@.subrange(0, end - 1));
            end = end - 1;
        } else if end >= 2 && p.get_char(end - 1) == '.' && p.get_char(end - 2) == '/' {
            assert(q@.drop_last().drop_last() =~= p@.subrange(0, end - 2));
            end = end - 2;
        } else {
            break;
        }
    }
    let ghost q = p@.subrange(0, end as int);
    let mut start: usize = end;
    assert(q.subrange(end as int, end as int) =~= Seq::<char>::empty());
    assert(p@.subrange(0, start as int) =~= q);
    while start > 0 && p.get_char(start - 1) != '/'
        invariant
            n == p@.len(),
            start <= end <= n,
            q == p@.subrange(0, end as int),
            last_segment(q) == last_segment(p@.subrange(0, start as int)) + p@.subrange(start as int, end as int),
        decreases start,
    {
        let ghost a = p@.subrange(0, start as int);
        assert(a.drop_last() =~= p@.subrange(0, start - 1));
        assert(last_segment(a) == last_segment(a.drop_last()).push(a.last()));
        assert(last_segment(a.drop_last()).push(a.last()) + p@.subrange(start as int, end as int)
            =~= last_segment(p@.subrange(0, start - 1)) + p@.subrange(start - 1, end as int));
        start = start - 1;
    }
    assert(last_segment(p@.subrange(0, start as int)) =~= Seq::<char>::empty());
    assert(last_segment(q) =~= p@.subrange(start as int, end as int));
    let seg = p.substring_char(start, end);
    proof { reveal_strlit("."); reveal_strlit(".."); reveal_strlit(""); }
    assert(path_file_name(q) == (if last_segment(q) == "."@ || last_segment(q) == ".."@ { Seq::<char>::empty() } else { last_segment(q) }));
    if str_eq(seg, ".") || str_eq(seg, "..") {
        return "";
    }
    seg
}

} // verus!
