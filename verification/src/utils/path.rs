//! File paths as text.
//!
//! A path is a string whose segments are separated by `/`. The file name is
//! the last segment, and its extension is what follows its last dot, unless
//! that dot is the first character of the name.

use crate::text::{chars_of, string_of};
use vstd::prelude::*;

verus! {

/// What is known of a path after looking it up on disk.
#[derive(Debug, Clone)]
pub struct PathInfo {
    /// The path that was looked up
    pub path: String,
    /// Whether anything is there
    pub exists: bool,
    /// Whether a regular file is there
    pub is_file: bool,
    /// Whether a directory is there
    pub is_dir: bool,
}

/// The position of the last `c` in `s`, or -1 where there is none.
pub open spec fn last_index_of(s: Seq<char>, c: char) -> int
    decreases s.len(),
{
    if s.len() == 0 {
        -1
    } else if s.last() == c {
        s.len() - 1
    } else {
        last_index_of(s.drop_last(), c)
    }
}

/// The last `c` of a text stands where a `c` stands that no `c` follows.
pub proof fn lemma_last_index_of(s: Seq<char>, c: char, n: int)
    requires
        -1 <= n < s.len(),
        forall|k: int| n < k < s.len() ==> s[k] != c,
        n == -1 || s[n] == c,
    ensures
        last_index_of(s, c) == n,
    decreases s.len(),
{
    if s.len() > 0 && n < s.len() - 1 {
        lemma_last_index_of(s.drop_last(), c, n);
    }
}

/// The last segment of a path.
pub open spec fn file_name(path: Seq<char>) -> Seq<char> {
    path.skip(last_index_of(path, '/') + 1)
}

/// Whether a path names a file: its last segment is neither empty nor `..`.
pub open spec fn has_file_name(path: Seq<char>) -> bool {
    let name = file_name(path);
    name.len() > 0 && name != seq!['.', '.']
}

/// The position in `path` of the dot that starts the extension, where the
/// file name has one.
pub open spec fn extension_dot(path: Seq<char>) -> Option<int> {
    let name = file_name(path);
    let dot = last_index_of(name, '.');
    if has_file_name(path) && dot > 0 {
        Some(path.len() - name.len() + dot)
    } else {
        None
    }
}

/// The extension of a path's file name, without its dot.
pub open spec fn extension(path: Seq<char>) -> Option<Seq<char>> {
    match extension_dot(path) {
        Some(dot) => Some(path.skip(dot + 1)),
        None => None,
    }
}

/// The path with the extension of its file name replaced by `ext`, or with
/// `.` and `ext` added where it had none. A path without a file name stays as
/// it is.
pub open spec fn with_extension(path: Seq<char>, ext: Seq<char>) -> Seq<char> {
    if !has_file_name(path) {
        path
    } else {
        let stem = match extension_dot(path) {
            Some(dot) => path.take(dot),
            None => path,
        };
        stem.push('.') + ext
    }
}

/// Finds the last `c` in `v[from..]`.
fn find_last(v: &Vec<char>, from: usize, c: char) -> (r: Option<usize>)
    requires
        from <= v.len(),
    ensures
        match r {
            Some(i) => from <= i < v.len() && last_index_of(
                v@.skip(from as int),
                c,
            ) == i - from,
            None => last_index_of(v@.skip(from as int), c) == -1,
        },
{
    let ghost s = v@.skip(from as int);
    let mut i: usize = v.len();
    while i > from
        invariant
            from <= i <= v.len(),
            s == v@.skip(from as int),
            forall|k: int| i - from <= k < s.len() ==> s[k] != c,
        decreases i,
    {
        i -= 1;
        if v[i] == c {
            proof {
                assert(s[i - from] == c);
                lemma_last_index_of(s, c, i - from);
            }
            return Some(i);
        }
    }
    proof {
        lemma_last_index_of(s, c, -1);
    }
    None
}

/// Where the file name of a path starts.
fn name_start(v: &Vec<char>) -> (r: usize)
    ensures
        r == last_index_of(v@, '/') + 1,
        r <= v.len(),
{
    proof {
        assert(v@.skip(0) == v@);
    }
    match find_last(v, 0, '/') {
        Some(i) => i + 1,
        None => 0,
    }
}

/// Finds the dot that starts the extension.
pub fn find_extension_dot(v: &Vec<char>) -> (r: Option<usize>)
    ensures
        match r {
            Some(i) => extension_dot(v@) == Some(i as int) && i < v.len(),
            None => extension_dot(v@).is_none(),
        },
{
    let start = name_start(v);
    let ghost name = file_name(v@);
    let n = v.len() - start;
    if n == 0 {
        return None;
    }
    if n == 2 && v[start] == '.' && v[start + 1] == '.' {
        assert(name == seq!['.', '.']);
        return None;
    }
    assert(name != seq!['.', '.']) by {
        if name == seq!['.', '.'] {
            assert(name.len() == 2);
            assert(name[0] == '.' && name[1] == '.');
        }
    }
    match find_last(v, start, '.') {
        Some(i) => {
            if i > start {
                Some(i)
            } else {
                None
            }
        },
        None => None,
    }
}

/// Whether a path names a file.
pub fn names_file(v: &Vec<char>) -> (r: bool)
    ensures
        r == has_file_name(v@),
{
    let start = name_start(v);
    let ghost name = file_name(v@);
    let n = v.len() - start;
    if n == 0 {
        return false;
    }
    if n == 2 && v[start] == '.' && v[start + 1] == '.' {
        assert(name == seq!['.', '.']);
        return false;
    }
    assert(name != seq!['.', '.']) by {
        if name == seq!['.', '.'] {
            assert(name.len() == 2);
            assert(name[0] == '.' && name[1] == '.');
        }
    }
    true
}

/// The file name of a path: its last segment.
pub fn path_file_name(path: &str) -> (r: String)
    ensures
        r@ == file_name(path@),
{
    let v = chars_of(path);
    let start = name_start(&v);
    let mut name: Vec<char> = Vec::new();
    let mut i: usize = start;
    while i < v.len()
        invariant
            start <= i <= v.len(),
            name@ == v@.subrange(start as int, i as int),
        decreases v.len() - i,
    {
        name.push(v[i]);
        i += 1;
    }
    assert(v@.subrange(start as int, v.len() as int) == v@.skip(start as int));
    string_of(&name)
}

/// The extension of a path's file name.
pub fn path_extension(path: &str) -> (r: Option<Vec<char>>)
    ensures
        match r {
            Some(e) => extension(path@) == Some(e@),
            None => extension(path@).is_none(),
        },
{
    let v = chars_of(path);
    match find_extension_dot(&v) {
        Some(dot) => {
            let mut e: Vec<char> = Vec::new();
            let mut i: usize = dot + 1;
            while i < v.len()
                invariant
                    dot + 1 <= i <= v.len(),
                    e@ == v@.subrange(dot + 1, i as int),
                decreases v.len() - i,
            {
                e.push(v[i]);
                i += 1;
            }
            assert(v@.subrange(dot + 1, v.len() as int) == v@.skip(dot + 1));
            Some(e)
        },
        None => None,
    }
}

/// Replaces the extension of a path's file name.
pub fn path_with_extension(path: &str, ext: &str) -> (r: String)
    ensures
        r@ == with_extension(path@, ext@),
{
    let v = chars_of(path);
    if !names_file(&v) {
        return string_of(&v);
    }
    let end = match find_extension_dot(&v) {
        Some(dot) => dot,
        None => v.len(),
    };
    let mut out: Vec<char> = Vec::new();
    let mut i: usize = 0;
    while i < end
        invariant
            i <= end <= v.len(),
            out@ == v@.take(i as int),
        decreases end - i,
    {
        out.push(v[i]);
        i += 1;
    }
    assert(v@.take(v.len() as int) == v@);
    out.push('.');
    let e = chars_of(ext);
    let mut j: usize = 0;
    while j < e.len()
        invariant
            j <= e.len(),
            out@ == v@.take(end as int).push('.') + e@.take(j as int),
        decreases e.len() - j,
    {
        out.push(e[j]);
        j += 1;
    }
    assert(e@.take(e.len() as int) == e@);
    string_of(&out)
}

} // verus!
