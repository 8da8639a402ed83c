//! The values that settings stores hold: a path, optionally behind the
//! `file://` scheme, wrapped in one layer of quotes.
use crate::error::Error;
use crate::text::{has_prefix, starts_with};
use vstd::prelude::*;

verus! {

/// The scheme that marks a value as a file URI.
pub open spec fn file_scheme() -> Seq<char> {
    "file://"@
}

/// The characters that may open and close a quoted value.
pub open spec fn is_quote_char(c: char) -> bool {
    c == '"' || c == '\'' || c == '`'
}

/// The characters that a backslash may escape in the plain quoting form.
pub open spec fn is_escapable(c: char) -> bool {
    c == '\\' || is_quote_char(c)
}

/// `s` with each `q` and each backslash preceded by a backslash.
pub open spec fn escaped(q: char, s: Seq<char>) -> Seq<char>
    decreases s.len(),
{
    if s.len() == 0 {
        Seq::empty()
    } else {
        let rest = escaped(q, s.drop_first());
        if s[0] == q || s[0] == '\\' {
            seq!['\\', s[0]] + rest
        } else {
            seq![s[0]] + rest
        }
    }
}

/// `s` escaped and wrapped in `q`.
pub open spec fn quoted(q: char, s: Seq<char>) -> Seq<char> {
    seq![q] + escaped(q, s) + seq![q]
}

/// The value written for `path`: double-quoted, behind the file scheme when
/// `with_scheme` holds.
pub open spec fn encoded(path: Seq<char>, with_scheme: bool) -> Seq<char> {
    quoted('"', if with_scheme { file_scheme() + path } else { path })
}

/// Unescaping of a quoted body whose escapes are all of a backslash or a quote
/// character and which holds no bare `q`: each escape gives the escaped
/// character. `None` for any other body.
pub open spec fn plain_unescape(t: Seq<char>, q: char) -> Option<Seq<char>>
    decreases t.len(),
{
    if t.len() == 0 {
        Some(Seq::empty())
    } else if t[0] == '\\' {
        if t.len() >= 2 && is_escapable(t[1]) {
            match plain_unescape(t.subrange(2, t.len() as int), q) {
                Some(u) => Some(seq![t[1]] + u),
                None => None,
            }
        } else {
            None
        }
    } else if t[0] == q {
        None
    } else {
        match plain_unescape(t.drop_first(), q) {
            Some(u) => Some(seq![t[0]] + u),
            None => None,
        }
    }
}

/// `s` opens and closes with the same quote character.
pub open spec fn quote_shaped(s: Seq<char>) -> bool {
    s.len() >= 2 && is_quote_char(s[0]) && s.last() == s[0]
}

/// Unquoting of a value in the plain form: its body unescaped. `None` where the
/// value is not quote-shaped or its body is not plain.
pub open spec fn plain_unquote(s: Seq<char>) -> Option<Seq<char>> {
    if quote_shaped(s) {
        plain_unescape(s.subrange(1, s.len() - 1), s[0])
    } else {
        None
    }
}

/// `u` without a leading file scheme, if it has one.
pub open spec fn strip_scheme(u: Seq<char>) -> Seq<char> {
    if has_prefix(u, file_scheme()) {
        u.subrange(file_scheme().len() as int, u.len() as int)
    } else {
        u
    }
}

/// What `enquote::unquote` returns for a value: the unquoted text, or `None`
/// where it fails.
pub uninterp spec fn unquoted(s: Seq<char>) -> Option<Seq<char>>;

/// Relies on `enquote::enquote`: the text between two `quote` characters, with
/// each `quote` and each backslash in it preceded by a backslash.
#[verifier::external_body]
fn enquote(quote: char, s: &str) -> (r: String)
    ensures
        r@ == quoted(quote, s@),
{
    enquote::enquote(quote, s)
}

/// Relies on `enquote::unquote`: it fails on a value that does not open and
/// close with the same quote character; it unescapes the body of one that does,
/// and a body in the plain form gives its plain unescaping.
#[verifier::external_body]
fn unquote(s: &str) -> (r: Option<String>)
    ensures
        r is Some ==> unquoted(s@) == Some(r->0@),
        r is None ==> unquoted(s@) is None,
        !quote_shaped(s@) ==> r is None,
        plain_unquote(s@) is Some ==> (r is Some && r->0@ == plain_unquote(s@)->0),
{
    enquote::unquote(s).ok()
}

/// Encodes a path as a settings value: behind `file://` when `with_scheme`
/// holds, then double-quoted.
pub fn encode(path: &str, with_scheme: bool) -> (r: String)
    ensures
        r@ == encoded(path@, with_scheme),
{
    if with_scheme {
        let uri = String::from_str("file://").concat(path);
        proof {
            reveal_strlit("file://");
        }
        enquote('"', uri.as_str())
    } else {
        enquote('"', path)
    }
}

/// `s` without a leading `file://`, if it has one.
pub fn strip_file_scheme(s: &str) -> (r: String)
    ensures
        r@ == strip_scheme(s@),
{
    proof {
        reveal_strlit("file://");
    }
    if starts_with(s, "file://") {
        let n = s.unicode_len();
        s.substring_char(7, n).to_owned()
    } else {
        s.to_owned()
    }
}

/// Decodes a settings value: unquotes it, then strips a leading `file://`.
/// A value that cannot be unquoted is malformed.
pub fn decode(raw: &str) -> (r: Result<String, Error>)
    ensures
        r is Ok <==> unquoted(raw@) is Some,
        r is Ok ==> r->Ok_0@ == strip_scheme(unquoted(raw@)->0),
        r is Err ==> r->Err_0 == Error::MalformedValue,
        !quote_shaped(raw@) ==> r == Err::<String, Error>(Error::MalformedValue),
        plain_unquote(raw@) is Some ==> (r is Ok && r->Ok_0@ == strip_scheme(plain_unquote(raw@)->0)),
{
    match unquote(raw) {
        None => Err(Error::MalformedValue),
        Some(u) => Ok(strip_file_scheme(u.as_str())),
    }
}

/// Unescaping undoes escaping, for any quote character.
pub proof fn lemma_unescape_escaped(q: char, s: Seq<char>)
    requires
        is_quote_char(q),
    ensures
        plain_unescape(escaped(q, s), q) == Some(s),
    decreases s.len(),
{
    if s.len() > 0 {
        let rest = s.drop_first();
        lemma_unescape_escaped(q, rest);
        let e = escaped(q, s);
        if s[0] == q || s[0] == '\\' {
            assert(e.subrange(2, e.len() as int) =~= escaped(q, rest));
        } else {
            assert(e.drop_first() =~= escaped(q, rest));
        }
        assert(seq![s[0]] + rest =~= s);
    }
}

/// Decoding an encoded path gives the path back: the quoting comes off, and
/// exactly the one file scheme that encoding added is stripped.
pub proof fn lemma_decode_encode(path: Seq<char>)
    ensures
        encoded(path, true) == quoted('"', file_scheme() + path),
        plain_unquote(encoded(path, true)) == Some(file_scheme() + path),
        strip_scheme(file_scheme() + path) == path,
{
    reveal_strlit("file://");
    let u = file_scheme() + path;
    let e = encoded(path, true);
    lemma_unescape_escaped('"', u);
    assert(e.subrange(1, e.len() - 1) =~= escaped('"', u));
    assert(u.subrange(0, 7) =~= file_scheme());
    assert(u.subrange(7, u.len() as int) =~= path);
}

} // verus!
