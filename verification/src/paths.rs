//! Slash-separated paths: their file name, stem and extension, and joining,
//! as `std::path::Path` reads them on Unix.

use vstd::prelude::*;
use crate::strings::{append_chars, append_str, chars_of, string_of};
use crate::timecode::{split_chars, split_spec};

verus! {

/// Whether a piece between slashes names a component (not empty, not `.`).
pub open spec fn names_component(p: Seq<char>) -> bool {
    p.len() > 0 && p != seq!['.']
}

/// The last piece below position `n` that names a component.
pub open spec fn last_component(parts: Seq<Seq<char>>, n: int) -> Option<Seq<char>>
    decreases n,
{
    if n <= 0 || n > parts.len() {
        None
    } else if names_component(parts[n - 1]) {
        Some(parts[n - 1])
    } else {
        last_component(parts, n - 1)
    }
}

/// The final component of the path, unless it is `..` or there is none
/// (`Path::file_name`).
pub open spec fn file_name_spec(path: Seq<char>) -> Option<Seq<char>> {
    let parts = split_spec(path, '/');
    match last_component(parts, parts.len() as int) {
        Some(c) => if c == seq!['.', '.'] {
            None
        } else {
            Some(c)
        },
        None => None,
    }
}

/// The position of the last `.` below `n`, or `-1`.
pub open spec fn last_dot(s: Seq<char>, n: int) -> int
    decreases n,
{
    if n <= 0 || n > s.len() {
        -1
    } else if s[n - 1] == '.' {
        n - 1
    } else {
        last_dot(s, n - 1)
    }
}

/// A file name split at its last dot into the part before and the part
/// after; a name without a dot, or whose only dot leads it, has no part
/// after and is all before.
pub open spec fn split_name_spec(name: Seq<char>) -> (Option<Seq<char>>, Option<Seq<char>>) {
    let d = last_dot(name, name.len() as int);
    if d < 0 {
        (None, Some(name))
    } else if d == 0 {
        (Some(name), None)
    } else {
        (Some(name.subrange(0, d)), Some(name.subrange(d + 1, name.len() as int)))
    }
}

/// The extension of the path's file name (`Path::extension`).
pub open spec fn extension_spec(path: Seq<char>) -> Option<Seq<char>> {
    match file_name_spec(path) {
        Some(name) => {
            let (before, after) = split_name_spec(name);
            if before is Some {
                after
            } else {
                None
            }
        },
        None => None,
    }
}

/// The file name without its extension (`Path::file_stem`).
pub open spec fn file_stem_spec(path: Seq<char>) -> Option<Seq<char>> {
    match file_name_spec(path) {
        Some(name) => {
            let (before, after) = split_name_spec(name);
            if before is Some {
                before
            } else {
                after
            }
        },
        None => None,
    }
}

/// `name` appended to `dir` as `Path::join` does: an absolute name replaces
/// the directory, otherwise a slash separates them unless `dir` is empty or
/// already ends with one.
pub open spec fn join_spec(dir: Seq<char>, name: Seq<char>) -> Seq<char> {
    if name.len() > 0 && name[0] == '/' {
        name
    } else if dir.len() == 0 {
        name
    } else if dir.last() == '/' {
        dir + name
    } else {
        dir + seq!['/'] + name
    }
}

/// Whether the piece is `.`.
fn is_single_dot(p: &Vec<char>) -> (r: bool)
    ensures
        r == (p@ == seq!['.']),
{
    let r = p.len() == 1 && p[0] == '.';
    proof {
        if r {
            assert(p@ =~= seq!['.']);
        }
    }
    r
}

/// Whether the piece is `..`.
fn is_double_dot(p: &Vec<char>) -> (r: bool)
    ensures
        r == (p@ == seq!['.', '.']),
{
    let r = p.len() == 2 && p[0] == '.' && p[1] == '.';
    proof {
        if r {
            assert(p@ =~= seq!['.', '.']);
        }
    }
    r
}

/// The final component of the path.
pub fn file_name(path: &[char]) -> (r: Option<Vec<char>>)
    ensures
        match r {
            Some(v) => file_name_spec(path@) == Some(v@),
            None => file_name_spec(path@) is None,
        },
{
    let parts = split_chars(path, '/');
    let ghost sp = split_spec(path@, '/');
    let mut i: usize = parts.len();
    while i > 0
        invariant
            i <= parts@.len(),
            sp == split_spec(path@, '/'),
            parts@.len() == sp.len(),
            forall|j: int| 0 <= j < parts@.len() ==> #[trigger] parts@[j]@ == sp[j],
            last_component(sp, sp.len() as int) == last_component(sp, i as int),
        decreases i,
    {
        let p = &parts[i - 1];
        assert(p@ == sp[i - 1]);
        if p.len() > 0 && !is_single_dot(p) {
            assert(names_component(sp[i - 1]));
            assert(last_component(sp, i as int) == Some(sp[i - 1]));
            if is_double_dot(p) {
                return None;
            }
            let mut out: Vec<char> = Vec::new();
            append_chars(&mut out, p.as_slice());
            assert(out@ =~= p@);
            return Some(out);
        }
        i = i - 1;
    }
    None
}

/// A file name split at its last dot.
fn split_name(name: &[char]) -> (r: (Option<Vec<char>>, Option<Vec<char>>))
    ensures
        (match r.0 {
            Some(v) => Some(v@),
            None => None,
        }, match r.1 {
            Some(v) => Some(v@),
            None => None,
        }) == split_name_spec(name@),
{
    let mut i: usize = name.len();
    while i > 0 && name[i - 1] != '.'
        invariant
            i <= name@.len(),
            last_dot(name@, name@.len() as int) == last_dot(name@, i as int),
        decreases i,
    {
        i = i - 1;
    }
    if i == 0 {
        let mut all: Vec<char> = Vec::new();
        append_chars(&mut all, name);
        return (None, Some(all));
    }
    let d = i - 1;
    if d == 0 {
        let mut all: Vec<char> = Vec::new();
        append_chars(&mut all, name);
        return (Some(all), None);
    }
    let before = crate::strings::slice_chars(name, 0, d);
    let after = crate::strings::slice_chars(name, d + 1, name.len());
    (Some(before), Some(after))
}

/// The extension of the path's file name.
pub fn extension(path: &[char]) -> (r: Option<Vec<char>>)
    ensures
        match r {
            Some(v) => extension_spec(path@) == Some(v@),
            None => extension_spec(path@) is None,
        },
{
    match file_name(path) {
        Some(name) => {
            let (before, after) = split_name(name.as_slice());
            if before.is_some() {
                after
            } else {
                None
            }
        },
        None => None,
    }
}

/// The file name without its extension.
pub fn file_stem(path: &[char]) -> (r: Option<Vec<char>>)
    ensures
        match r {
            Some(v) => file_stem_spec(path@) == Some(v@),
            None => file_stem_spec(path@) is None,
        },
{
    match file_name(path) {
        Some(name) => {
            let (before, after) = split_name(name.as_slice());
            if before.is_some() {
                before
            } else {
                after
            }
        },
        None => None,
    }
}

/// `name` joined onto `dir`.
pub fn join_path(dir: &str, name: &str) -> (r: String)
    ensures
        r@ == join_spec(dir@, name@),
{
    let d = chars_of(dir);
    let n = chars_of(name);
    if n.len() > 0 && n[0] == '/' {
        return string_of(n.as_slice());
    }
    if d.len() == 0 {
        return string_of(n.as_slice());
    }
    let mut out = d;
    if out[out.len() - 1] != '/' {
        out.push('/');
    }
    append_chars(&mut out, n.as_slice());
    string_of(out.as_slice())
}

} // verus!
