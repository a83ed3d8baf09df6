//! Unpacking of delimiter-packed string lists.
//!
//! One boundary entry point receives its file paths as a single string
//! with a caller-chosen delimiter (`C:\a.txt;C:\b.txt`); this module
//! splits such a string into its nonempty pieces.

use vstd::prelude::*;

verus! {

/// The nonempty pieces of `s` between the leftmost-first, non-overlapping
/// occurrences of the delimiter `d`; `cur` carries the piece begun to the
/// left of `s`.
pub open spec fn split_nonempty(s: Seq<char>, d: Seq<char>, cur: Seq<char>) -> Seq<Seq<char>>
    decreases s.len(),
{
    if d.len() == 0 || s.len() < d.len() {
        if cur.len() + s.len() > 0 {
            seq![cur + s]
        } else {
            Seq::empty()
        }
    } else if s.take(d.len() as int) == d {
        (if cur.len() > 0 {
            seq![cur]
        } else {
            Seq::empty()
        }) + split_nonempty(s.skip(d.len() as int), d, Seq::empty())
    } else {
        split_nonempty(s.drop_first(), d, cur.push(s[0]))
    }
}

/// What `unpack_strings` returns: the packed string itself when the
/// delimiter is empty, otherwise its nonempty pieces between occurrences
/// of the delimiter.
pub open spec fn unpacked_strings(s: Seq<char>, d: Seq<char>) -> Seq<Seq<char>> {
    if d.len() == 0 {
        seq![s]
    } else {
        split_nonempty(s, d, Seq::empty())
    }
}

/// Whether `d` occurs in `s` at position `i`.
fn matches_at(s: &str, d: &str, i: usize, d_len: usize, s_len: usize) -> (b: bool)
    requires
        d_len == d@.len(),
        s_len == s@.len(),
        i + d_len <= s_len,
    ensures
        b <==> s@.subrange(i as int, i as int + d@.len() as int) =~= d@,
{
    let mut j: usize = 0;
    while j < d_len
        invariant
            j <= d_len,
            d_len == d@.len(),
            s_len == s@.len(),
            i + d_len <= s_len,
            forall|t: int| 0 <= t < j ==> s@[i + t] == d@[t],
        decreases d_len - j,
    {
        if s.get_char(i + j) != d.get_char(j) {
            proof {
                assert(s@.subrange(i as int, i as int + d@.len() as int)[j as int] == s@[i + j]);
            }
            return false;
        }
        j = j + 1;
    }
    proof {
        assert(s@.subrange(i as int, i as int + d@.len() as int) =~= d@);
    }
    true
}

/// The nonempty pieces of `packed` between occurrences of `delim`, in
/// order; the whole string alone when the delimiter is empty.
pub fn unpack_strings(packed: String, delim: &str) -> (r: Vec<String>)
    ensures
        r.deep_view() == unpacked_strings(packed@, delim@),
{
    let d_len = delim.unicode_len();
    if d_len == 0 {
        let ghost whole = packed@;
        let mut r: Vec<String> = Vec::new();
        r.push(packed);
        proof {
            assert(r.deep_view() =~= seq![whole]);
        }
        return r;
    }
    let s = packed.as_str();
    let s_len = s.unicode_len();
    let mut out: Vec<String> = Vec::new();
    let mut start: usize = 0;
    let mut i: usize = 0;
    proof {
        assert(packed@.skip(0) =~= packed@);
        assert(packed@.subrange(0, 0) =~= Seq::<char>::empty());
        assert(out.deep_view() =~= Seq::<Seq<char>>::empty());
        assert(unpacked_strings(packed@, delim@) =~= out.deep_view() + split_nonempty(
            packed@.skip(0),
            delim@,
            packed@.subrange(0, 0),
        ));
    }
    while s_len - i >= d_len
        invariant
            start <= i && i <= s_len,
            s_len == packed@.len(),
            d_len == delim@.len(),
            d_len > 0,
            s@ == packed@,
            unpacked_strings(packed@, delim@) == out.deep_view() + split_nonempty(
                packed@.skip(i as int),
                delim@,
                packed@.subrange(start as int, i as int),
            ),
        decreases s_len - i,
    {
        let ghost cur = packed@.subrange(start as int, i as int);
        let ghost rest = packed@.skip(i as int);
        if matches_at(s, delim, i, d_len, s_len) {
            proof {
                assert(rest.take(d_len as int) =~= packed@.subrange(
                    i as int,
                    i as int + d_len as int,
                ));
                assert(rest.take(d_len as int) == delim@);
                assert(rest.skip(d_len as int) =~= packed@.skip(i as int + d_len as int));
                assert(split_nonempty(rest, delim@, cur) == (if cur.len() > 0 {
                    seq![cur]
                } else {
                    Seq::<Seq<char>>::empty()
                }) + split_nonempty(
                    packed@.skip(i as int + d_len as int),
                    delim@,
                    Seq::<char>::empty(),
                ));
            }
            if i > start {
                let piece = s.substring_char(start, i);
                let ghost old_deep = out.deep_view();
                out.push(piece.to_owned());
                proof {
                    assert(out.deep_view() =~~= old_deep.push(cur));
                }
            }
            i = i + d_len;
            start = i;
            proof {
                assert(packed@.subrange(start as int, i as int) =~= Seq::<char>::empty());
                assert(unpacked_strings(packed@, delim@) =~= out.deep_view() + split_nonempty(
                    packed@.skip(i as int),
                    delim@,
                    packed@.subrange(start as int, i as int),
                ));
            }
        } else {
            proof {
                assert(rest.take(d_len as int) =~= packed@.subrange(
                    i as int,
                    i as int + d_len as int,
                ));
                assert(rest.take(d_len as int) != delim@);
                assert(rest.drop_first() =~= packed@.skip(i as int + 1));
                assert(rest[0] == packed@[i as int]);
                assert(cur.push(packed@[i as int]) =~= packed@.subrange(
                    start as int,
                    i as int + 1,
                ));
                assert(split_nonempty(rest, delim@, cur) == split_nonempty(
                    packed@.skip(i as int + 1),
                    delim@,
                    packed@.subrange(start as int, i as int + 1),
                ));
            }
            i = i + 1;
        }
    }
    let ghost cur = packed@.subrange(start as int, i as int);
    let ghost rest = packed@.skip(i as int);
    proof {
        assert(rest.len() < d_len);
        assert(cur + rest =~= packed@.subrange(start as int, s_len as int));
        assert(cur.len() + rest.len() == s_len - start);
    }
    if start < s_len {
        let piece = s.substring_char(start, s_len);
        let ghost old_deep = out.deep_view();
        out.push(piece.to_owned());
        proof {
            assert(piece@ == cur + rest);
            assert(out.deep_view() =~~= old_deep.push(cur + rest));
            assert(old_deep.push(cur + rest) =~= old_deep + split_nonempty(rest, delim@, cur));
        }
    } else {
        proof {
            assert(split_nonempty(rest, delim@, cur) =~= Seq::<Seq<char>>::empty());
            assert(out.deep_view() + split_nonempty(rest, delim@, cur) =~= out.deep_view());
        }
    }
    out
}

} // verus!
