//! Percent-encoding of parameter values, and joining of encoded parts.
//!
//! The encoding itself is done by the `urlencoding` crate; its exact
//! behaviour on the UTF-8 bytes of the input is written out here as
//! `url_encoded`, and everything built on top is proved against that.

use vstd::prelude::*;
use vstd::string::StringSliceAdditionalSpecFns;

verus! {

/// The bytes that `urlencoding` leaves as they are: ASCII alphanumerics
/// and `-`, `.`, `_`, `~`.
pub open spec fn is_url_safe_byte(b: u8) -> bool {
    (48 <= b && b <= 57)  // '0'..='9'
     || (65 <= b && b <= 90)  // 'A'..='Z'
     || (97 <= b && b <= 122)  // 'a'..='z'
     || b == 45 || b == 46 || b == 95 || b == 126  // - . _ ~
}

/// The upper-case hex digit for a value below 16.
pub open spec fn hex_digit_upper(n: u8) -> char
    recommends
        n < 16,
{
    if n < 10 {
        (48 + n) as char  // '0' + n
    } else {
        (55 + n) as char  // 'A' + (n - 10)
    }
}

/// How one byte appears in the encoded output: kept, or `%` and two
/// upper-case hex digits.
pub open spec fn encoded_byte(b: u8) -> Seq<char> {
    if is_url_safe_byte(b) {
        seq![b as char]
    } else {
        seq!['%', hex_digit_upper(b / 16), hex_digit_upper(b % 16)]
    }
}

/// The percent-encoded form of a byte sequence.
pub open spec fn url_encoded(bytes: Seq<u8>) -> Seq<char>
    decreases bytes.len(),
{
    if bytes.len() == 0 {
        Seq::empty()
    } else {
        encoded_byte(bytes.first()) + url_encoded(bytes.drop_first())
    }
}

/// Relies on `urlencoding::encode`: every byte of the UTF-8 form of `s`
/// except ASCII alphanumerics and `-`, `.`, `_`, `~` is replaced by `%`
/// and two upper-case hex digits; the rest pass through unchanged.
#[verifier::external_body]
pub(crate) fn url_encode(s: &str) -> (r: String)
    ensures
        r@ == url_encoded(s.spec_bytes()),
{
    urlencoding::encode(s).into_owned()
}

/// The parts joined by the separator, with no leading or trailing copy.
pub open spec fn join_with(parts: Seq<Seq<char>>, sep: Seq<char>) -> Seq<char>
    decreases parts.len(),
{
    if parts.len() == 0 {
        Seq::empty()
    } else if parts.len() == 1 {
        parts[0]
    } else {
        parts[0] + sep + join_with(parts.drop_first(), sep)
    }
}

/// Appending one part extends the joined string by one separator and the
/// part, except when it is the first.
pub proof fn lemma_join_with_push(parts: Seq<Seq<char>>, sep: Seq<char>, last: Seq<char>)
    ensures
        join_with(parts.push(last), sep) == if parts.len() == 0 {
            last
        } else {
            join_with(parts, sep) + sep + last
        },
    decreases parts.len(),
{
    let whole = parts.push(last);
    if parts.len() == 0 {
        assert(whole.len() == 1);
        assert(whole[0] == last);
    } else {
        assert(whole.drop_first() =~= parts.drop_first().push(last));
        lemma_join_with_push(parts.drop_first(), sep, last);
        if parts.len() == 1 {
            assert(parts.drop_first().len() == 0);
            assert(join_with(whole, sep) == whole[0] + sep + last);
            assert(whole[0] == parts[0]);
            assert(join_with(parts, sep) == parts[0]);
        } else {
            assert(join_with(whole, sep) == whole[0] + sep + (join_with(parts.drop_first(), sep)
                + sep + last));
            assert(whole[0] + sep + (join_with(parts.drop_first(), sep) + sep + last) =~= (parts[0]
                + sep + join_with(parts.drop_first(), sep)) + sep + last);
        }
    }
}

/// The parts joined by `sep`, built left to right.
pub fn join_strings(parts: &Vec<String>, sep: &str) -> (r: String)
    ensures
        r@ == join_with(parts.deep_view(), sep@),
{
    let mut r = String::new();
    let mut i: usize = 0;
    while i < parts.len()
        invariant
            i <= parts.len(),
            r@ == join_with(parts.deep_view().take(i as int), sep@),
        decreases parts.len() - i,
    {
        proof {
            lemma_join_with_push(parts.deep_view().take(i as int), sep@, parts@[i as int]@);
            assert(parts.deep_view().take(i as int).push(parts@[i as int]@) =~= parts.deep_view()
                .take(i as int + 1));
        }
        if i > 0 {
            r.append(sep);
        }
        r.append(parts[i].as_str());
        i = i + 1;
    }
    proof {
        assert(parts.deep_view().take(parts@.len() as int) =~= parts.deep_view());
    }
    r
}

} // verus!
