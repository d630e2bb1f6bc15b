//! File names and extensions.
use vstd::prelude::*;
use crate::text::{chars_of, find, find_char, lemma_find, lemma_rfind, push_char, rfind, rfind_char, string_from_range, sub_vec};

verus! {

/// `c` is an ASCII letter or digit.
pub open spec fn is_ascii_alphanumeric(c: char) -> bool {
    ('a' <= c && c <= 'z') || ('A' <= c && c <= 'Z') || ('0' <= c && c <= '9')
}

/// `c` may stay in a file name as it is.
pub open spec fn is_safe_file_char(c: char) -> bool {
    is_ascii_alphanumeric(c) || c == '.' || c == '-' || c == '_'
}

/// `s` with every character that may not stay in a file name replaced by
/// `_`.
pub open spec fn sanitized(s: Seq<char>) -> Seq<char> {
    s.map_values(|c: char| if is_safe_file_char(c) { c } else { '_' })
}

/// The extension of `p`: what follows its last `.`, if it has one.
pub open spec fn extension_of(p: Seq<char>) -> Option<Seq<char>> {
    match rfind(p, '.') {
        Some(i) => Some(p.subrange(i + 1, p.len() as int)),
        None => None,
    }
}

/// `p` without its last `.` and what follows it.
pub open spec fn without_extension(p: Seq<char>) -> Seq<char> {
    match rfind(p, '.') {
        Some(i) => p.subrange(0, i),
        None => p,
    }
}

/// What follows the last `/` of `u` (all of `u` where it has none).
pub open spec fn last_segment(u: Seq<char>) -> Seq<char> {
    match rfind(u, '/') {
        Some(i) => u.subrange(i + 1, u.len() as int),
        None => u,
    }
}

/// What precedes the first `?` of `s` (all of `s` where it has none).
pub open spec fn before_query(s: Seq<char>) -> Seq<char> {
    match find(s, '?') {
        Some(i) => s.subrange(0, i),
        None => s,
    }
}

/// The file name that a URL names: its last path segment without the
/// query.
pub open spec fn url_file_name_spec(u: Seq<char>) -> Seq<char> {
    before_query(last_segment(u))
}

/// Replaces every character that is not an ASCII letter or digit, `.`, `-`
/// or `_` by `_`.
pub fn sanitize_filename(name: &str) -> (s: String)
    ensures
        s@ == sanitized(name@),
        s@.len() == name@.len(),
        forall|i: int|
            0 <= i < name@.len() && (('A' <= name@[i] && name@[i] <= 'Z') || ('a' <= name@[i]
                && name@[i] <= 'z') || ('0' <= name@[i] && name@[i] <= '9') || name@[i] == '.'
                || name@[i] == '-' || name@[i] == '_') ==> #[trigger] s@[i] == name@[i],
        forall|i: int|
            0 <= i < name@.len() && !(('A' <= name@[i] && name@[i] <= 'Z') || ('a' <= name@[i]
                && name@[i] <= 'z') || ('0' <= name@[i] && name@[i] <= '9') || name@[i] == '.'
                || name@[i] == '-' || name@[i] == '_') ==> #[trigger] s@[i] == '_',
{
    let v = chars_of(name);
    let mut s = String::new();
    let mut i: usize = 0;
    while i < v.len()
        invariant
            v@ == name@,
            i <= v@.len(),
            s@ == sanitized(v@.subrange(0, i as int)),
        decreases v.len() - i,
    {
        let c = v[i];
        let safe = ('a' <= c && c <= 'z') || ('A' <= c && c <= 'Z') || ('0' <= c && c <= '9')
            || c == '.' || c == '-' || c == '_';
        if safe {
            push_char(&mut s, c);
        } else {
            push_char(&mut s, '_');
        }
        assert(v@.subrange(0, i + 1) == v@.subrange(0, i as int).push(c));
        assert(sanitized(v@.subrange(0, i + 1)) == sanitized(v@.subrange(0, i as int)).push(
            if is_safe_file_char(c) {
                c
            } else {
                '_'
            },
        ));
        i = i + 1;
    }
    assert(v@.subrange(0, v@.len() as int) == v@);
    s
}

/// The extension of `path`: what follows its last `.`, or `None` where it
/// has no `.`.
pub fn file_extension(path: &str) -> (r: Option<&str>)
    ensures
        match extension_of(path@) {
            Some(e) => r is Some && r->0@ == e,
            None => r is None,
        },
{
    let v = chars_of(path);
    let n = v.len();
    proof {
        lemma_rfind(v@, '.');
    }
    match rfind_char(&v, '.') {
        Some(pos) => Some(path.substring_char(pos + 1, n)),
        None => None,
    }
}

/// `path` without its extension: everything before its last `.`, or all
/// of it where it has no `.`.
pub fn strip_extension(path: &str) -> (s: String)
    ensures
        s@ == without_extension(path@),
{
    let v = chars_of(path);
    let n = v.len();
    proof {
        lemma_rfind(v@, '.');
    }
    match rfind_char(&v, '.') {
        Some(pos) => string_from_range(&v, 0, pos),
        None => {
            let s = string_from_range(&v, 0, n);
            assert(v@.subrange(0, n as int) == v@);
            s
        },
    }
}

/// The file name that `url` names: its last `/`-separated segment, cut at
/// the first `?`.
pub fn url_file_name(url: &str) -> (s: String)
    ensures
        s@ == url_file_name_spec(url@),
{
    let v = chars_of(url);
    proof {
        lemma_rfind(v@, '/');
    }
    let n = v.len();
    let start = match rfind_char(&v, '/') {
        Some(i) => i + 1,
        None => 0,
    };
    let seg = sub_vec(&v, start, n);
    assert(seg@ == last_segment(url@));
    proof {
        lemma_find(seg@, '?');
    }
    let end = match find_char(&seg, '?') {
        Some(j) => j,
        None => seg.len(),
    };
    string_from_range(&seg, 0, end)
}

// ---------------------------------------------------------------------------
// Laws
// ---------------------------------------------------------------------------

/// Sanitizing keeps the number of characters, leaves only characters that
/// may stay in a file name, and changes nothing the second time.
pub proof fn law_sanitize(name: Seq<char>)
    ensures
        sanitized(name).len() == name.len(),
        forall|i: int| 0 <= i < name.len() ==> is_safe_file_char(#[trigger] sanitized(name)[i]),
        sanitized(sanitized(name)) == sanitized(name),
        forall|i: int|
            0 <= i < name.len() && is_safe_file_char(name[i]) ==> #[trigger] sanitized(name)[i]
                == name[i],
        forall|i: int|
            0 <= i < name.len() && (('A' <= name[i] && name[i] <= 'Z') || ('a' <= name[i] && name[i]
                <= 'z') || ('0' <= name[i] && name[i] <= '9') || name[i] == '.' || name[i] == '-'
                || name[i] == '_') ==> #[trigger] sanitized(name)[i] == name[i],
        forall|i: int|
            0 <= i < name.len() && !(('A' <= name[i] && name[i] <= 'Z') || ('a' <= name[i]
                && name[i] <= 'z') || ('0' <= name[i] && name[i] <= '9') || name[i] == '.'
                || name[i] == '-' || name[i] == '_') ==> #[trigger] sanitized(name)[i] == '_',
{
    assert(sanitized(sanitized(name)) =~= sanitized(name));
}

/// A path that has an extension is the path without it, a `.`, and the
/// extension; a path without one is left whole.
pub proof fn law_extension_split(path: Seq<char>)
    ensures
        match extension_of(path) {
            Some(e) => without_extension(path) + seq!['.'] + e == path,
            None => without_extension(path) == path,
        },
        extension_of(path) matches Some(e) ==> !e.contains('.'),
{
    lemma_rfind(path, '.');
    match rfind(path, '.') {
        Some(i) => {
            assert(path.subrange(0, i) + seq!['.'] + path.subrange(i + 1, path.len() as int)
                =~= path);
            let e = path.subrange(i + 1, path.len() as int);
            assert forall|j: int| 0 <= j < e.len() implies e[j] != '.' by {
                assert(e[j] == path[i + 1 + j]);
            }
        },
        None => {},
    }
}

/// The file name a URL names is the run of characters after its last `/`
/// (or from its start, where it has none) up to the first `?` after that
/// (or its end): it holds no `/` and no `?`.
pub proof fn law_url_file_name(u: Seq<char>)
    ensures
        forall|k: int|
            0 <= k < url_file_name_spec(u).len() ==> #[trigger] url_file_name_spec(u)[k] != '/'
                && url_file_name_spec(u)[k] != '?',
        exists|i: int, j: int|
            0 <= i <= j <= u.len() && u.subrange(i, j) == url_file_name_spec(u) && (i == 0 || u[i
                - 1] == '/') && (forall|k: int| i <= k < u.len() ==> u[k] != '/') && (j == u.len()
                || u[j] == '?'),
{
    lemma_rfind(u, '/');
    let i: int = match rfind(u, '/') {
        Some(p) => p + 1,
        None => 0,
    };
    let seg = u.subrange(i, u.len() as int);
    assert(seg == last_segment(u));
    lemma_find(seg, '?');
    let j: int = match find(seg, '?') {
        Some(q) => i + q,
        None => u.len() as int,
    };
    assert(u.subrange(i, j) =~= url_file_name_spec(u));
    assert forall|k: int| 0 <= k < url_file_name_spec(u).len() implies #[trigger] url_file_name_spec(
        u,
    )[k] != '/' && url_file_name_spec(u)[k] != '?' by {
        assert(url_file_name_spec(u)[k] == seg[k]);
        assert(seg[k] == u[i + k]);
    }
    assert forall|k: int| i <= k < u.len() implies u[k] != '/' by {
        if rfind(u, '/') is None {
        }
    }
}

} // verus!
