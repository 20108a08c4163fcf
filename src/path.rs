//! The textual parts of a path that classification reads: its final file name
//! and that name's extension. Paths are '/'-separated.
use vstd::prelude::*;
use vstd::string::StrSliceExecFns;

verus! {

/// Index at which the last segment of `p` begins: one past its last '/', or 0.
pub open spec fn segment_start(p: Seq<char>) -> int
    decreases p.len(),
{
    if p.len() == 0 {
        0
    } else if p.last() == '/' {
        p.len() as int
    } else {
        segment_start(p.drop_last())
    }
}

/// `s` is the parent-directory segment "..".
pub open spec fn is_parent_dir(s: Seq<char>) -> bool {
    s.len() == 2 && s[0] == '.' && s[1] == '.'
}

/// The final file name of a path. Empty segments and "." segments are
/// skipped; a path whose last remaining segment is ".." or that has none
/// (the empty path, "/", ".") has no file name.
pub open spec fn file_name_of(p: Seq<char>) -> Option<Seq<char>>
    decreases p.len(),
{
    if p.len() == 0 {
        None
    } else if p.last() == '/' {
        file_name_of(p.drop_last())
    } else if p.last() == '.' && (p.len() == 1 || p[p.len() - 2] == '/') {
        if p.len() == 1 {
            None
        } else {
            file_name_of(p.drop_last())
        }
    } else {
        let seg = p.subrange(segment_start(p), p.len() as int);
        if is_parent_dir(seg) {
            None
        } else {
            Some(seg)
        }
    }
}

/// Index of the last '.' in `s`, or -1 where there is none.
pub open spec fn last_dot(s: Seq<char>) -> int
    decreases s.len(),
{
    if s.len() == 0 {
        -1
    } else if s.last() == '.' {
        s.len() - 1
    } else {
        last_dot(s.drop_last())
    }
}

/// The extension of a file name: what follows its last '.', where that dot
/// is not the name's first character.
pub open spec fn extension_of(name: Seq<char>) -> Option<Seq<char>> {
    let d = last_dot(name);
    if d <= 0 {
        None
    } else {
        Some(name.subrange(d + 1, name.len() as int))
    }
}

proof fn lemma_last_dot_bounds(s: Seq<char>)
    ensures
        -1 <= last_dot(s) < s.len(),
        last_dot(s) >= 0 ==> s[last_dot(s)] == '.',
        forall|k: int| last_dot(s) < k < s.len() ==> s[k] != '.',
    decreases s.len(),
{
    if s.len() > 0 && s.last() != '.' {
        lemma_last_dot_bounds(s.drop_last());
        assert forall|k: int| last_dot(s) < k < s.len() implies s[k] != '.' by {
            if k < s.len() - 1 {
                assert(s[k] == s.drop_last()[k]);
            }
        }
    }
}

/// An extension is only the suffix after the last dot of a file name: it
/// holds no dot itself, and the name ends with it.
pub proof fn lemma_extension_is_final_suffix(name: Seq<char>)
    requires
        extension_of(name) is Some,
    ensures
        forall|k: int|
            0 <= k < extension_of(name)->0.len() ==> #[trigger] extension_of(name)->0[k] != '.',
        name.len() > extension_of(name)->0.len() + 1,
        name.subrange(name.len() - extension_of(name)->0.len(), name.len() as int)
            == extension_of(name)->0,
        name[name.len() - extension_of(name)->0.len() - 1] == '.',
{
    lemma_last_dot_bounds(name);
    let e = extension_of(name)->0;
    let d = last_dot(name);
    assert forall|k: int| 0 <= k < e.len() implies #[trigger] e[k] != '.' by {
        assert(e[k] == name[d + 1 + k]);
    }
    assert(name.subrange(name.len() - e.len(), name.len() as int) =~= e);
}

/// The final file name of `path`, as `file_name_of` describes it.
pub fn file_name(path: &str) -> (r: Option<&str>)
    ensures
        r matches Some(n) ==> file_name_of(path@) == Some(n@),
        r is None ==> file_name_of(path@) is None,
{
    let ghost p = path@;
    let mut end: usize = path.unicode_len();
    assert(p.subrange(0, end as int) =~= p);
    while end > 0
        invariant
            end <= p.len(),
            p == path@,
            file_name_of(p.subrange(0, end as int)) == file_name_of(p),
        decreases end,
    {
        let ghost q = p.subrange(0, end as int);
        assert(q.drop_last() =~= p.subrange(0, end - 1));
        let c = path.get_char(end - 1);
        if c == '/' {
            end = end - 1;
        } else if c == '.' && (end == 1 || path.get_char(end - 2) == '/') {
            if end == 1 {
                return None;
            }
            end = end - 1;
        } else {
            let mut start: usize = end - 1;
            while start > 0 && path.get_char(start - 1) != '/'
                invariant
                    start < end <= p.len(),
                    p == path@,
                    q == p.subrange(0, end as int),
                    segment_start(q) == segment_start(p.subrange(0, start as int)),
                decreases start,
            {
                assert(p.subrange(0, start as int).drop_last() =~= p.subrange(0, start - 1));
                start = start - 1;
            }
            proof {
                let qs = p.subrange(0, start as int);
                if start > 0 {
                    assert(qs.last() == '/');
                } else {
                    assert(qs.len() == 0);
                }
                assert(segment_start(qs) == start);
            }
            assert(q.subrange(start as int, end as int) =~= p.subrange(start as int, end as int));
            if end - start == 2 && path.get_char(start) == '.' && path.get_char(start + 1) == '.' {
                return None;
            }
            return Some(path.substring_char(start, end));
        }
    }
    None
}

/// The extension of the file name `name`, as `extension_of` describes it.
pub fn extension(name: &str) -> (r: Option<&str>)
    ensures
        r matches Some(e) ==> extension_of(name@) == Some(e@),
        r is None ==> extension_of(name@) is None,
{
    let ghost s = name@;
    let n: usize = name.unicode_len();
    let mut i: usize = n;
    assert(s.subrange(0, n as int) =~= s);
    while i > 0 && name.get_char(i - 1) != '.'
        invariant
            i <= n == s.len(),
            s == name@,
            last_dot(s) == last_dot(s.subrange(0, i as int)),
        decreases i,
    {
        assert(s.subrange(0, i as int).drop_last() =~= s.subrange(0, i - 1));
        i = i - 1;
    }
    proof {
        if i == 0 {
            assert(s.subrange(0, 0).len() == 0);
        }
    }
    if i <= 1 {
        None
    } else {
        Some(name.substring_char(i, n))
    }
}

} // verus!
