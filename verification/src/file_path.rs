//! Windows-style path handling on plain strings.
//!
//! Attachment paths cross the boundary as strings and are handed to the
//! mail client as strings, so the few path operations the library needs
//! (final component, parent, join) are defined here directly on character
//! sequences. Both `\` and `/` are accepted as separators.

use vstd::prelude::*;

verus! {

/// Both separators that appear in the paths this library receives.
pub open spec fn is_sep(c: char) -> bool {
    c == '\\' || c == '/'
}

/// The path without its trailing separators.
pub open spec fn strip_trailing_seps(p: Seq<char>) -> Seq<char>
    decreases p.len(),
{
    if p.len() > 0 && is_sep(p.last()) {
        strip_trailing_seps(p.drop_last())
    } else {
        p
    }
}

/// The suffix of `p` after its last separator (all of `p` if there is none).
pub open spec fn after_last_sep(p: Seq<char>) -> Seq<char>
    decreases p.len(),
{
    if p.len() == 0 {
        p
    } else if is_sep(p.last()) {
        Seq::empty()
    } else {
        after_last_sep(p.drop_last()).push(p.last())
    }
}

pub open spec fn is_ascii_alpha(c: char) -> bool {
    ('A' <= c && c <= 'Z') || ('a' <= c && c <= 'z')
}

/// A drive designator such as `C:`.
pub open spec fn is_drive_prefix(p: Seq<char>) -> bool {
    p.len() == 2 && is_ascii_alpha(p[0]) && p[1] == ':'
}

/// The final path component, if there is one.
///
/// Trailing separators are ignored. A path that is empty, all separators,
/// a bare drive designator, or that ends in a `.` or `..` component has no
/// final component.
pub open spec fn file_name_chars(p: Seq<char>) -> Option<Seq<char>> {
    let t = strip_trailing_seps(p);
    let name = after_last_sep(t);
    if name.len() == 0 {
        None
    } else if name.len() == t.len() && is_drive_prefix(name) {
        None
    } else if name == seq!['.'] || name == seq!['.', '.'] {
        None
    } else {
        Some(name)
    }
}

/// The path without its final component: the directory part, with its own
/// trailing separators removed (a bare root separator is kept). A path
/// that is a single component has the empty parent; an empty or
/// all-separator path and a bare drive designator have none.
pub open spec fn parent_chars(p: Seq<char>) -> Option<Seq<char>> {
    let t = strip_trailing_seps(p);
    let name = after_last_sep(t);
    if t.len() == 0 {
        None
    } else if name.len() == t.len() {
        if is_drive_prefix(t) {
            None
        } else {
            Some(Seq::empty())
        }
    } else {
        let head = strip_trailing_seps(t.take(t.len() - name.len()));
        if head.len() == 0 {
            Some(t.take(1))
        } else {
            Some(head)
        }
    }
}

/// The separator used when extending `p`: the one `p` already uses,
/// `\` when it uses none (or both).
pub open spec fn preferred_sep(p: Seq<char>) -> char {
    if p.contains('\\') {
        '\\'
    } else if p.contains('/') {
        '/'
    } else {
        '\\'
    }
}

/// `base` extended by one more component.
pub open spec fn join_chars(base: Seq<char>, name: Seq<char>) -> Seq<char> {
    if base.len() == 0 {
        name
    } else if is_sep(base.last()) {
        base + name
    } else {
        base.push(preferred_sep(base)) + name
    }
}

fn is_sep_char(c: char) -> (b: bool)
    ensures
        b == is_sep(c),
{
    c == '\\' || c == '/'
}

/// The length of `p@.take(from as int)` once trailing separators are removed.
fn trimmed_end_upto(p: &str, from: usize) -> (e: usize)
    requires
        from <= p@.len(),
    ensures
        e <= from,
        strip_trailing_seps(p@.take(from as int)) == p@.take(e as int),
        e > 0 ==> !is_sep(p@[e as int - 1]),
{
    let mut e = from;
    while e > 0 && is_sep_char(p.get_char(e - 1))
        invariant
            e <= from,
            from <= p@.len(),
            strip_trailing_seps(p@.take(from as int)) == strip_trailing_seps(p@.take(e as int)),
        decreases e,
    {
        proof {
            assert(p@.take(e as int).drop_last() =~= p@.take(e as int - 1));
        }
        e = e - 1;
    }
    proof {
        if e > 0 {
            assert(p@.take(e as int).last() == p@[e as int - 1]);
        }
        assert(strip_trailing_seps(p@.take(e as int)) == p@.take(e as int));
    }
    e
}

/// The start of the final component of `p@.take(e as int)`, a prefix that
/// does not end in a separator.
fn name_start(p: &str, e: usize) -> (b: usize)
    requires
        e <= p@.len(),
        e > 0 ==> !is_sep(p@[e as int - 1]),
    ensures
        b <= e,
        after_last_sep(p@.take(e as int)) == p@.subrange(b as int, e as int),
        b > 0 ==> is_sep(p@[b as int - 1]),
        e > 0 ==> b < e,
{
    let mut b = e;
    while b > 0 && !is_sep_char(p.get_char(b - 1))
        invariant
            b <= e,
            e <= p@.len(),
            after_last_sep(p@.take(e as int)) == after_last_sep(p@.take(b as int)) + p@.subrange(
                b as int,
                e as int,
            ),
        decreases b,
    {
        proof {
            assert(p@.take(b as int).drop_last() =~= p@.take(b as int - 1));
            assert(after_last_sep(p@.take(b as int - 1)) + p@.subrange(b as int - 1, e as int)
                =~= after_last_sep(p@.take(b as int - 1)).push(p@[b as int - 1]) + p@.subrange(
                b as int,
                e as int,
            ));
        }
        b = b - 1;
    }
    proof {
        if b > 0 {
            assert(p@.take(b as int).last() == p@[b as int - 1]);
            assert(after_last_sep(p@.take(b as int)) =~= Seq::<char>::empty());
        } else {
            assert(p@.take(0) =~= Seq::<char>::empty());
        }
        assert(after_last_sep(p@.take(e as int)) =~= p@.subrange(b as int, e as int));
        if e > 0 && b == e {
            assert(is_sep(p@[e as int - 1]));
        }
    }
    b
}

/// The final component of `p`, per `file_name_chars`.
pub fn path_file_name(p: &str) -> (r: Option<String>)
    ensures
        r.deep_view() == file_name_chars(p@),
{
    let len = p.unicode_len();
    let e = trimmed_end_upto(p, len);
    proof {
        assert(p@.take(len as int) =~= p@);
    }
    let b = name_start(p, e);
    if e == 0 {
        return None;
    }
    let ghost t = strip_trailing_seps(p@);
    let ghost name = after_last_sep(t);
    proof {
        assert(name =~= p@.subrange(b as int, e as int));
        assert(name.len() == e - b);
    }
    if b == 0 && e == 2 {
        let c0 = p.get_char(0);
        let c1 = p.get_char(1);
        if (('A' <= c0 && c0 <= 'Z') || ('a' <= c0 && c0 <= 'z')) && c1 == ':' {
            proof {
                assert(name[0] == p@[0]);
                assert(name[1] == p@[1]);
            }
            return None;
        }
        proof {
            assert(!is_drive_prefix(name));
        }
    }
    if e - b == 1 && p.get_char(b) == '.' {
        proof {
            assert(name =~= seq!['.']);
        }
        return None;
    }
    if e - b == 2 && p.get_char(b) == '.' && p.get_char(b + 1) == '.' {
        proof {
            assert(name =~= seq!['.', '.']);
        }
        return None;
    }
    proof {
        assert(name != seq!['.'] && name != seq!['.', '.']) by {
            if name == seq!['.'] {
                assert(name[0] == '.');
            }
            if name == seq!['.', '.'] {
                assert(name[0] == '.' && name[1] == '.');
            }
        }
    }
    let s = p.substring_char(b, e);
    Some(s.to_owned())
}

/// The parent of `p`, per `parent_chars`.
pub fn path_parent(p: &str) -> (r: Option<String>)
    ensures
        r.deep_view() == parent_chars(p@),
{
    let len = p.unicode_len();
    let e = trimmed_end_upto(p, len);
    proof {
        assert(p@.take(len as int) =~= p@);
    }
    let b = name_start(p, e);
    let ghost t = strip_trailing_seps(p@);
    let ghost name = after_last_sep(t);
    proof {
        assert(t == p@.take(e as int));
        assert(name =~= p@.subrange(b as int, e as int));
        assert(name.len() == e - b);
    }
    if e == 0 {
        return None;
    }
    if b == 0 {
        let c0 = p.get_char(0);
        let c1 = if e >= 2 {
            p.get_char(1)
        } else {
            '\\'
        };
        if e == 2 && (('A' <= c0 && c0 <= 'Z') || ('a' <= c0 && c0 <= 'z')) && c1 == ':' {
            proof {
                assert(name[0] == p@[0]);
                assert(name[1] == p@[1]);
                assert(is_drive_prefix(t));
            }
            return None;
        }
        proof {
            assert(!is_drive_prefix(t));
        }
        return Some(String::new());
    }
    proof {
        assert(t.take(t.len() - name.len()) =~= p@.take(b as int));
    }
    let e2 = trimmed_end_upto(p, b);
    if e2 == 0 {
        proof {
            assert(t.take(1) =~= p@.subrange(0, 1));
        }
        let s = p.substring_char(0, 1);
        Some(s.to_owned())
    } else {
        let s = p.substring_char(0, e2);
        proof {
            assert(p@.take(e2 as int) =~= p@.subrange(0, e2 as int));
        }
        Some(s.to_owned())
    }
}

fn contains_char(p: &str, c: char) -> (b: bool)
    ensures
        b == p@.contains(c),
{
    let len = p.unicode_len();
    let mut i: usize = 0;
    while i < len
        invariant
            i <= len,
            len == p@.len(),
            forall|j: int| 0 <= j < i ==> p@[j] != c,
        decreases len - i,
    {
        if p.get_char(i) == c {
            return true;
        }
        i = i + 1;
    }
    proof {
        assert(!p@.contains(c));
    }
    false
}

/// A path that has been checked to have a final component, so that
/// `file_name` is total on it.
pub struct FilePath {
    path: String,
}

impl View for FilePath {
    type V = Seq<char>;

    closed spec fn view(&self) -> Seq<char> {
        self.path@
    }
}

impl FilePath {
    /// A `FilePath` always carries a final component.
    pub open spec fn wf(&self) -> bool {
        file_name_chars(self@) is Some
    }

    /// Accepts exactly the paths with a final component.
    pub fn try_from(path: String) -> (r: Result<FilePath, ()>)
        ensures
            r is Ok <==> file_name_chars(path@) is Some,
            r matches Ok(fp) ==> fp@ == path@ && fp.wf(),
    {
        let name = path_file_name(path.as_str());
        match name {
            Some(_) => Ok(FilePath { path }),
            None => Err(()),
        }
    }

    /// The checked final component.
    pub fn file_name(&self) -> (r: String)
        requires
            self.wf(),
        ensures
            Some(r@) == file_name_chars(self@),
    {
        let name = path_file_name(self.path.as_str());
        match name {
            Some(n) => n,
            None => String::new(),  // unreachable: wf guarantees a component
        }
    }

    /// The path itself.
    pub fn as_string(&self) -> (r: &String)
        ensures
            r@ == self@,
    {
        &self.path
    }
}

/// `base` extended by the component `name`, per `join_chars`.
pub fn path_join(base: &str, name: &str) -> (r: String)
    ensures
        r@ == join_chars(base@, name@),
{
    let len = base.unicode_len();
    if len == 0 {
        return name.to_owned();
    }
    let last = base.get_char(len - 1);
    if last == '\\' || last == '/' {
        proof {
            assert(base@.last() == base@[len as int - 1]);
        }
        let mut r = base.to_owned();
        r.append(name);
        return r;
    }
    let mut r = base.to_owned();
    if contains_char(base, '\\') {
        r.append("\\");
        proof {
            reveal_strlit("\\");
            assert(r@ =~= base@.push('\\'));
        }
    } else if contains_char(base, '/') {
        r.append("/");
        proof {
            reveal_strlit("/");
            assert(r@ =~= base@.push('/'));
        }
    } else {
        r.append("\\");
        proof {
            reveal_strlit("\\");
            assert(r@ =~= base@.push('\\'));
        }
    }
    r.append(name);
    r
}

} // verus!
