//! File-system paths as text, with the meaning that `std::path` gives them
//! on Unix: `/` separates components, empty and `.` components inside a path
//! are ignored, and a leading `/` (root) or `./` (current directory) is kept.
use vstd::prelude::*;
use crate::text::{chars_of, string_of};

verus! {

/// Where the body of a path starts: after a leading `/`, or after a leading
/// `.` that forms the whole first component of a relative path.
pub open spec fn body_start(p: Seq<char>) -> nat {
    if p.len() > 0 && p[0] == '/' {
        1
    } else if p.len() > 0 && p[0] == '.' && (p.len() == 1 || p[1] == '/') {
        1
    } else {
        0
    }
}

/// The position of the last `/` at or after `start`, or `-1`.
pub open spec fn last_sep_from(p: Seq<char>, start: nat) -> int
    decreases p.len(),
{
    if p.len() <= start {
        -1
    } else if p.last() == '/' {
        p.len() - 1
    } else {
        last_sep_from(p.drop_last(), start)
    }
}

/// The path without its last body component (and the separator before it).
pub open spec fn without_last(p: Seq<char>, start: nat) -> Seq<char> {
    let i = last_sep_from(p, start);
    if i < 0 {
        p.subrange(0, start as int)
    } else {
        p.subrange(0, i)
    }
}

/// The last body component of the path (the text after the last separator).
pub open spec fn last_segment(p: Seq<char>, start: nat) -> Seq<char> {
    let i = last_sep_from(p, start);
    if i < 0 {
        p.subrange(start as int, p.len() as int)
    } else {
        p.subrange(i + 1, p.len() as int)
    }
}

/// Whether a component is ignored inside a path (empty, or `.`).
pub open spec fn is_ignored(seg: Seq<char>) -> bool {
    seg.len() == 0 || seg == seq!['.']
}

/// The path with trailing separators and `.` components removed.
pub open spec fn trim_back(p: Seq<char>, start: nat) -> Seq<char>
    decreases p.len(),
{
    if p.len() <= start {
        p
    } else if is_ignored(last_segment(p, start)) {
        if without_last(p, start).len() < p.len() {
            trim_back(without_last(p, start), start)
        } else {
            p
        }
    } else {
        p
    }
}

/// `Path::file_name`: the last component, unless it is `..` or there is none.
pub open spec fn file_name_of(p: Seq<char>) -> Option<Seq<char>> {
    let start = body_start(p);
    let t = trim_back(p, start);
    if t.len() <= start {
        None
    } else if last_segment(t, start) == seq!['.', '.'] {
        None
    } else {
        Some(last_segment(t, start))
    }
}

/// `Path::parent`: the path without its last component; `None` for the root
/// and for the empty path.
pub open spec fn parent_of(p: Seq<char>) -> Option<Seq<char>> {
    let start = body_start(p);
    let t = trim_back(p, start);
    if t.len() <= start {
        if p.len() > 0 && p[0] == '/' {
            None
        } else if start == 1 {
            Some(Seq::<char>::empty())
        } else {
            None
        }
    } else {
        Some(trim_back(without_last(t, start), start))
    }
}

/// The position of the last `.` in `s`, or `-1`.
pub open spec fn last_dot(s: Seq<char>) -> int
    decreases s.len(),
{
    if s.len() == 0 {
        -1
    } else if s.last() == '.' {
        s.len() - 1
    } else {
        last_dot(s.drop_last())
    }
}

/// `Path::extension`: the text after the last `.` of the file name, unless
/// that `.` is the first character of the name.
pub open spec fn extension_of(p: Seq<char>) -> Option<Seq<char>> {
    match file_name_of(p) {
        None => None,
        Some(name) => {
            let d = last_dot(name);
            if d <= 0 {
                None
            } else {
                Some(name.subrange(d + 1, name.len() as int))
            }
        },
    }
}

/// `PathBuf::join`: an absolute `part` replaces the base; otherwise `part` is
/// appended, with a separator unless the base is empty or ends with one.
pub open spec fn join_of(base: Seq<char>, part: Seq<char>) -> Seq<char> {
    if part.len() > 0 && part[0] == '/' {
        part
    } else if base.len() > 0 && base.last() != '/' {
        base + seq!['/'] + part
    } else {
        base + part
    }
}

/// Position of the last `/` at or after `start` in `v[..end]`, or `None`.
fn find_last_sep(v: &Vec<char>, start: usize, end: usize) -> (r: Option<usize>)
    requires
        end <= v.len(),
    ensures
        match r {
            Some(i) => last_sep_from(v@.subrange(0, end as int), start as nat) == i as int && start <= i < end,
            None => last_sep_from(v@.subrange(0, end as int), start as nat) < 0,
        },
{
    let mut e = end;
    while e > start
        invariant
            e <= end <= v.len(),
            last_sep_from(v@.subrange(0, end as int), start as nat) == last_sep_from(v@.subrange(0, e as int), start as nat),
        decreases e,
    {
        let ghost cur = v@.subrange(0, e as int);
        assert(cur.drop_last() =~= v@.subrange(0, e - 1));
        if v[e - 1] == '/' {
            return Some(e - 1);
        }
        e = e - 1;
    }
    None
}

/// Length of `trim_back(v[..end], start)`.
fn trimmed_len(v: &Vec<char>, start: usize, end: usize) -> (n: usize)
    requires
        end <= v.len(),
    ensures
        n <= end,
        trim_back(v@.subrange(0, end as int), start as nat) == v@.subrange(0, n as int),
{
    let mut e = end;
    while e > start
        invariant
            e <= end <= v.len(),
            trim_back(v@.subrange(0, end as int), start as nat) == trim_back(v@.subrange(0, e as int), start as nat),
        decreases e,
    {
        let ghost cur = v@.subrange(0, e as int);
        let sep = find_last_sep(v, start, e);
        let (seg_start, cut) = match sep {
            Some(i) => (i + 1, i),
            None => (start, start),
        };
        assert(last_segment(cur, start as nat) =~= v@.subrange(seg_start as int, e as int));
        assert(without_last(cur, start as nat) =~= v@.subrange(0, cut as int));
        let ignored = seg_start == e || (seg_start + 1 == e && v[seg_start] == '.');
        assert(ignored == is_ignored(last_segment(cur, start as nat))) by {
            let seg = v@.subrange(seg_start as int, e as int);
            if seg_start + 1 == e {
                if v@[seg_start as int] == '.' {
                    assert(seg =~= seq!['.']);
                } else {
                    assert(seg[0] != seq!['.'][0]);
                }
            } else if seg_start != e {
                assert(seg.len() != seq!['.'].len());
            }
        }
        if !ignored {
            return e;
        }
        if cut >= e {
            return e;
        }
        e = cut;
    }
    e
}

/// `Path::file_name` on a character vector.
pub fn file_name_chars(v: &Vec<char>) -> (r: Option<Vec<char>>)
    ensures
        match r {
            Some(n) => file_name_of(v@) == Some(n@),
            None => file_name_of(v@) is None,
        },
{
    assert(v@.subrange(0, v.len() as int) =~= v@);
    let start: usize = if v.len() > 0 && v[0] == '/' {
        1
    } else if v.len() > 0 && v[0] == '.' && (v.len() == 1 || v[1] == '/') {
        1
    } else {
        0
    };
    let t = trimmed_len(v, start, v.len());
    if t <= start {
        return None;
    }
    let ghost tt = v@.subrange(0, t as int);
    let sep = find_last_sep(v, start, t);
    let seg_start = match sep {
        Some(i) => i + 1,
        None => start,
    };
    assert(last_segment(tt, start as nat) =~= v@.subrange(seg_start as int, t as int));
    if t >= 2 && seg_start == t - 2 && v[seg_start] == '.' && v[seg_start + 1] == '.' {
        assert(v@.subrange(seg_start as int, t as int) =~= seq!['.', '.']);
        return None;
    }
    assert(v@.subrange(seg_start as int, t as int) != seq!['.', '.']) by {
        if v@.subrange(seg_start as int, t as int) == seq!['.', '.'] {
            assert(v@.subrange(seg_start as int, t as int)[0] == '.');
            assert(v@.subrange(seg_start as int, t as int)[1] == '.');
        }
    }
    Some(crate::text::slice_chars(v.as_slice(), seg_start, t))
}

/// `Path::parent` on a character vector.
pub fn parent_chars(v: &Vec<char>) -> (r: Option<Vec<char>>)
    ensures
        match r {
            Some(n) => parent_of(v@) == Some(n@),
            None => parent_of(v@) is None,
        },
{
    assert(v@.subrange(0, v.len() as int) =~= v@);
    let start: usize = if v.len() > 0 && v[0] == '/' {
        1
    } else if v.len() > 0 && v[0] == '.' && (v.len() == 1 || v[1] == '/') {
        1
    } else {
        0
    };
    let t = trimmed_len(v, start, v.len());
    if t <= start {
        if v.len() > 0 && v[0] == '/' {
            return None;
        } else if start == 1 {
            return Some(Vec::new());
        } else {
            return None;
        }
    }
    let ghost tt = v@.subrange(0, t as int);
    let sep = find_last_sep(v, start, t);
    let cut = match sep {
        Some(i) => i,
        None => start,
    };
    assert(without_last(tt, start as nat) =~= v@.subrange(0, cut as int));
    let n = trimmed_len(v, start, cut);
    Some(crate::text::slice_chars(v.as_slice(), 0, n))
}

/// `Path::extension` on a character vector.
pub fn extension_chars(v: &Vec<char>) -> (r: Option<Vec<char>>)
    ensures
        match r {
            Some(n) => extension_of(v@) == Some(n@),
            None => extension_of(v@) is None,
        },
{
    match file_name_chars(v) {
        None => None,
        Some(name) => {
            let mut e = name.len();
            assert(name@.subrange(0, name.len() as int) =~= name@);
            while e > 0 && name[e - 1] != '.'
                invariant
                    e <= name.len(),
                    last_dot(name@) == last_dot(name@.subrange(0, e as int)),
                decreases e,
            {
                assert(name@.subrange(0, e as int).drop_last() =~= name@.subrange(0, e - 1));
                e = e - 1;
            }
            if e <= 1 {
                None
            } else {
                Some(crate::text::slice_chars(name.as_slice(), e, name.len()))
            }
        },
    }
}

/// `PathBuf::join` on character vectors.
pub fn join_chars(base: &Vec<char>, part: &Vec<char>) -> (r: Vec<char>)
    ensures
        r@ == join_of(base@, part@),
{
    if part.len() > 0 && part[0] == '/' {
        return part.clone();
    }
    let mut r = base.clone();
    if base.len() > 0 && base[base.len() - 1] != '/' {
        r.push('/');
    }
    let mut i: usize = 0;
    let ghost head = r@;
    while i < part.len()
        invariant
            i <= part.len(),
            r@ == head + part@.subrange(0, i as int),
        decreases part.len() - i,
    {
        r.push(part[i]);
        i = i + 1;
    }
    assert(part@.subrange(0, part.len() as int) =~= part@);
    r
}

/// The file name of a path (`Path::file_name`).
pub fn file_name(path: &str) -> (r: Option<String>)
    ensures
        match r {
            Some(n) => file_name_of(path@) == Some(n@),
            None => file_name_of(path@) is None,
        },
{
    let v = chars_of(path);
    match file_name_chars(&v) {
        Some(n) => Some(string_of(n.as_slice())),
        None => None,
    }
}

/// The parent of a path (`Path::parent`).
pub fn parent(path: &str) -> (r: Option<String>)
    ensures
        match r {
            Some(n) => parent_of(path@) == Some(n@),
            None => parent_of(path@) is None,
        },
{
    let v = chars_of(path);
    match parent_chars(&v) {
        Some(n) => Some(string_of(n.as_slice())),
        None => None,
    }
}

/// The extension of a path (`Path::extension`).
pub fn extension(path: &str) -> (r: Option<String>)
    ensures
        match r {
            Some(n) => extension_of(path@) == Some(n@),
            None => extension_of(path@) is None,
        },
{
    let v = chars_of(path);
    match extension_chars(&v) {
        Some(n) => Some(string_of(n.as_slice())),
        None => None,
    }
}

/// `base` joined with `part` (`Path::join`).
pub fn join(base: &str, part: &str) -> (r: String)
    ensures
        r@ == join_of(base@, part@),
{
    let b = chars_of(base);
    let p = chars_of(part);
    let j = join_chars(&b, &p);
    string_of(j.as_slice())
}

} // verus!
