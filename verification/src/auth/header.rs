//! The text of an authorization header, reduced to the token it carries.
//!
//! A client may send the token alone or behind the scheme word `Bearer`.
//! Every leading repetition of the scheme word is removed, then white space
//! at both ends.

use vstd::prelude::*;

verus! {

/// The scheme word that may precede a token.
pub open spec fn scheme() -> Seq<char> {
    seq!['B', 'e', 'a', 'r', 'e', 'r']
}

/// Whether `c` is white space in the sense of Unicode (`White_Space`).
pub open spec fn is_white_space(c: char) -> bool {
    let n = c as u32;
    ||| 0x09 <= n <= 0x0D
    ||| n == 0x20
    ||| n == 0x85
    ||| n == 0xA0
    ||| n == 0x1680
    ||| 0x2000 <= n <= 0x200A
    ||| n == 0x2028
    ||| n == 0x2029
    ||| n == 0x202F
    ||| n == 0x205F
    ||| n == 0x3000
}

/// `s` without any leading repetitions of the scheme word.
pub open spec fn without_scheme(s: Seq<char>) -> Seq<char>
    decreases s.len(),
{
    if scheme().is_prefix_of(s) {
        without_scheme(s.skip(6))
    } else {
        s
    }
}

/// `s` without leading white space.
pub open spec fn trim_start(s: Seq<char>) -> Seq<char>
    decreases s.len(),
{
    if s.len() > 0 && is_white_space(s[0]) {
        trim_start(s.skip(1))
    } else {
        s
    }
}

/// `s` without trailing white space.
pub open spec fn trim_end(s: Seq<char>) -> Seq<char>
    decreases s.len(),
{
    if s.len() > 0 && is_white_space(s[s.len() - 1]) {
        trim_end(s.take(s.len() - 1))
    } else {
        s
    }
}

/// The token that a header value carries.
pub open spec fn bare_token(header: Seq<char>) -> Seq<char> {
    trim_end(trim_start(without_scheme(header)))
}

/// Whether `c` is white space.
pub fn white_space(c: char) -> (r: bool)
    ensures
        r == is_white_space(c),
{
    let n: u32 = c as u32;
    (0x09 <= n && n <= 0x0D) || n == 0x20 || n == 0x85 || n == 0xA0 || n == 0x1680 || (0x2000 <= n
        && n <= 0x200A) || n == 0x2028 || n == 0x2029 || n == 0x202F || n == 0x205F || n == 0x3000
}

/// Whether the scheme word stands in `text` at position `at`.
fn scheme_at(text: &str, at: usize, len: usize) -> (r: bool)
    requires
        len == text@.len(),
        at <= len,
    ensures
        r == scheme().is_prefix_of(text@.skip(at as int)),
{
    if len - at < 6 {
        return false;
    }
    text.get_char(at) == 'B' && text.get_char(at + 1) == 'e' && text.get_char(at + 2) == 'a'
        && text.get_char(at + 3) == 'r' && text.get_char(at + 4) == 'e' && text.get_char(at + 5)
        == 'r'
}

/// The token that the header value `header` carries: without the scheme
/// word, however often it is repeated in front, and without white space at
/// either end.
pub fn strip_scheme(header: &str) -> (token: &str)
    ensures
        token@ == bare_token(header@),
{
    let len = header.unicode_len();
    let mut from: usize = 0;
    assert(header@.skip(0) =~= header@);
    while scheme_at(header, from, len)
        invariant
            len == header@.len(),
            from <= len,
            without_scheme(header@) == without_scheme(header@.skip(from as int)),
        decreases len - from,
    {
        proof {
            assert(header@.skip(from as int).skip(6) =~= header@.skip(from + 6));
        }
        from = from + 6;
    }
    while from < len && white_space(header.get_char(from))
        invariant
            len == header@.len(),
            from <= len,
            trim_start(without_scheme(header@)) == trim_start(header@.skip(from as int)),
        decreases len - from,
    {
        proof {
            assert(header@.skip(from as int).skip(1) =~= header@.skip(from + 1));
        }
        from = from + 1;
    }
    let mut to: usize = len;
    while from < to && white_space(header.get_char(to - 1))
        invariant
            len == header@.len(),
            from <= to <= len,
            bare_token(header@) == trim_end(header@.subrange(from as int, to as int)),
        decreases to,
    {
        proof {
            let cur = header@.subrange(from as int, to as int);
            assert(cur.take(cur.len() - 1) =~= header@.subrange(from as int, to - 1));
        }
        to = to - 1;
    }
    header.substring_char(from, to)
}

/// The header value that carries `token` behind the scheme word and a
/// space.
pub open spec fn with_scheme(token: Seq<char>) -> Seq<char> {
    scheme() + seq![' '] + token
}

/// Removing the scheme word never lengthens a text, and leaves its length
/// only where the text does not begin with the scheme word and stays whole.
pub proof fn lemma_without_scheme_shortens(s: Seq<char>)
    ensures
        without_scheme(s).len() <= s.len(),
        without_scheme(s).len() == s.len() ==> without_scheme(s) == s && !scheme().is_prefix_of(s),
    decreases s.len(),
{
    if scheme().is_prefix_of(s) {
        lemma_without_scheme_shortens(s.skip(6));
    }
}

/// Trimming at the start never lengthens a text, and leaves its length only
/// where the text stays whole.
pub proof fn lemma_trim_start_shortens(s: Seq<char>)
    ensures
        trim_start(s).len() <= s.len(),
        trim_start(s).len() == s.len() ==> trim_start(s) == s,
    decreases s.len(),
{
    if s.len() > 0 && is_white_space(s[0]) {
        lemma_trim_start_shortens(s.skip(1));
    }
}

/// Trimming at the end never lengthens a text, and leaves its length only
/// where the text stays whole.
pub proof fn lemma_trim_end_shortens(s: Seq<char>)
    ensures
        trim_end(s).len() <= s.len(),
        trim_end(s).len() == s.len() ==> trim_end(s) == s,
    decreases s.len(),
{
    if s.len() > 0 && is_white_space(s[s.len() - 1]) {
        lemma_trim_end_shortens(s.take(s.len() - 1));
    }
}

/// A header value with the scheme word and a space in front of `token`
/// carries the same token as `token` alone, unless `token` itself begins
/// with the scheme word.
pub proof fn lemma_scheme_and_space_are_stripped(token: Seq<char>)
    requires
        !scheme().is_prefix_of(token),
    ensures
        bare_token(with_scheme(token)) == bare_token(token),
{
    let header = with_scheme(token);
    let rest = seq![' '] + token;
    assert(!scheme().is_prefix_of(rest));
    assert(without_scheme(header) == rest) by {
        reveal_with_fuel(without_scheme, 2);
    }
    assert(rest.skip(1) =~= token);
}

/// A token that carries no scheme word and no white space around it is what
/// a header value carries that holds it behind the scheme word and a space.
pub proof fn lemma_whole_token_behind_scheme(token: Seq<char>)
    requires
        bare_token(token) == token,
    ensures
        !scheme().is_prefix_of(token),
        bare_token(with_scheme(token)) == token,
{
    lemma_without_scheme_shortens(token);
    lemma_trim_start_shortens(without_scheme(token));
    lemma_trim_end_shortens(trim_start(without_scheme(token)));
    lemma_scheme_and_space_are_stripped(token);
}

} // verus!
