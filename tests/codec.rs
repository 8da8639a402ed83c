use wallpaper::codec::{decode, encode};
use wallpaper::error::Error;

#[test]
fn encode_with_scheme() {
    assert_eq!(encode("/tmp/w.png", true), "\"file:///tmp/w.png\"");
}

#[test]
fn encode_without_scheme() {
    assert_eq!(encode("/tmp/w.png", false), "\"/tmp/w.png\"");
}

#[test]
fn encode_escapes_quotes_and_backslashes() {
    assert_eq!(encode("a\"b\\c", false), "\"a\\\"b\\\\c\"");
}

#[test]
fn encode_adds_one_scheme_only() {
    assert_eq!(encode("file:///x", true), "\"file://file:///x\"");
}

#[test]
fn decode_strips_exactly_the_scheme() {
    assert_eq!(decode("'file:///home/x/a.png'").unwrap(), "/home/x/a.png");
    assert_eq!(decode("\"file:///home/x/a.png\"").unwrap(), "/home/x/a.png");
}

#[test]
fn decode_keeps_bare_path() {
    assert_eq!(decode("'/home/x/a.png'").unwrap(), "/home/x/a.png");
    assert_eq!(decode("''").unwrap(), "");
}

#[test]
fn decode_strips_one_scheme_only() {
    assert_eq!(decode("'file://file:///a'").unwrap(), "file:///a");
}

#[test]
fn decode_unescapes() {
    assert_eq!(decode("\"a\\\"b\\\\c\"").unwrap(), "a\"b\\c");
    assert_eq!(decode("'a\\nb'").unwrap(), "a\nb");
}

#[test]
fn decode_rejects_malformed_values() {
    assert_eq!(decode(""), Err(Error::MalformedValue));
    assert_eq!(decode("'"), Err(Error::MalformedValue));
    assert_eq!(decode("/home/x/a.png"), Err(Error::MalformedValue));
    assert_eq!(decode("'abc\""), Err(Error::MalformedValue));
    assert_eq!(decode("'a'b'"), Err(Error::MalformedValue));
    assert_eq!(decode("'a\\'"), Err(Error::MalformedValue));
}

#[test]
fn decode_undoes_encode() {
    for p in ["/tmp/w.png", "", "rel/a b.jpg", "/x/back\\slash", "/x/q\"uote", "file:///y"] {
        assert_eq!(decode(&encode(p, true)).unwrap(), p);
        assert_eq!(decode(&encode(p, false)).unwrap().as_str(), p.strip_prefix("file://").unwrap_or(p));
    }
}
