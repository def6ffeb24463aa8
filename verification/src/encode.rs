//! Encodings that the library takes from outside crates: percent-encoding of
//! URL query values, TOML string literals, and a string member of a JSON
//! message.
use vstd::prelude::*;
use vstd::utf8::encode_utf8;

verus! {

/// ASCII letters and digits: the bytes that `NON_ALPHANUMERIC` leaves alone.
pub open spec fn is_ascii_alnum(b: u8) -> bool {
    ||| 0x30 <= b <= 0x39
    ||| 0x41 <= b <= 0x5a
    ||| 0x61 <= b <= 0x7a
}

/// The upper-case hexadecimal digits, by value.
pub open spec fn hex_upper() -> Seq<char> {
    seq!['0', '1', '2', '3', '4', '5', '6', '7', '8', '9', 'A', 'B', 'C', 'D', 'E', 'F']
}

/// One byte under the `NON_ALPHANUMERIC` set: kept as its character when it
/// is an ASCII letter or digit, else written `%XY` in upper-case hex.
pub open spec fn percent_byte(b: u8) -> Seq<char> {
    if is_ascii_alnum(b) {
        seq![b as char]
    } else {
        seq!['%', hex_upper()[(b / 16) as int], hex_upper()[(b % 16) as int]]
    }
}

/// Percent-encoding of a byte string with the `NON_ALPHANUMERIC` set.
pub open spec fn percent_encoded(bytes: Seq<u8>) -> Seq<char>
    decreases bytes.len(),
{
    if bytes.len() == 0 {
        Seq::empty()
    } else {
        percent_encoded(bytes.drop_last()) + percent_byte(bytes.last())
    }
}

/// Percent-encoding of the UTF-8 form of a text.
pub open spec fn percent_encoded_text(s: Seq<char>) -> Seq<char> {
    percent_encoded(encode_utf8(s))
}

/// Characters that can stand in a query value without ending it: ASCII
/// letters, digits and `%`.
pub open spec fn is_query_safe(c: char) -> bool {
    ||| '0' <= c <= '9'
    ||| 'A' <= c <= 'Z'
    ||| 'a' <= c <= 'z'
    ||| c == '%'
}

/// Every character of a percent-encoded byte string is query-safe, so a
/// value encoded this way can hold no `&`, `#`, `?` or `=`.
pub proof fn lemma_percent_encoded_safe(bytes: Seq<u8>)
    ensures
        forall|i: int|
            0 <= i < percent_encoded(bytes).len() ==> is_query_safe(
                #[trigger] percent_encoded(bytes)[i],
            ),
    decreases bytes.len(),
{
    if bytes.len() > 0 {
        lemma_percent_encoded_safe(bytes.drop_last());
        let b = bytes.last();
        let prev = percent_encoded(bytes.drop_last());
        let tail = percent_byte(b);
        assert forall|i: int| 0 <= i < tail.len() implies is_query_safe(#[trigger] tail[i]) by {
            if is_ascii_alnum(b) {
                assert(tail[i] == b as char);
            } else {
                assert(0 <= b / 16 < 16);
                assert(0 <= b % 16 < 16);
            }
        }
        assert forall|i: int|
            0 <= i < percent_encoded(bytes).len() implies is_query_safe(
                #[trigger] percent_encoded(bytes)[i],
            ) by {
            if i < prev.len() {
                assert(percent_encoded(bytes)[i] == prev[i]);
            } else {
                assert(percent_encoded(bytes)[i] == tail[i - prev.len()]);
            }
        }
    }
}

/// `percent_encoding::utf8_percent_encode(s, NON_ALPHANUMERIC)`, collected
/// with `to_string`. Claimed of it: every byte of the UTF-8 form of `s` that
/// is not an ASCII letter or digit becomes `%` and two upper-case hex digits,
/// the others are kept, in order.
#[verifier::external_body]
pub(crate) fn percent_encode_text(s: &str) -> (r: String)
    ensures
        r@ == percent_encoded_text(s@),
{
    percent_encoding::utf8_percent_encode(s, percent_encoding::NON_ALPHANUMERIC).to_string()
}

/// What `toml` writes for a string value: a quoted TOML string literal
/// whose style (basic, literal, multi-line) the crate picks from the text.
pub uninterp spec fn toml_string_literal(s: Seq<char>) -> Seq<char>;

/// `toml::Value::String(s).to_string()`. Claimed of it: the result depends
/// on `s` alone and is `toml_string_literal(s)`; what that text is, is not
/// stated here.
#[verifier::external_body]
pub(crate) fn toml_quote(s: &str) -> (r: String)
    ensures
        r@ == toml_string_literal(s@),
{
    toml::Value::String(s.to_string()).to_string()
}

/// The member `key` of a JSON text as `serde_json` reads it: `None` when
/// the text is not JSON, `Some(None)` when it has no member `key` holding a
/// string, else `Some(Some(v))` with that string.
pub uninterp spec fn json_string_member(text: Seq<char>, key: Seq<char>) -> Option<Option<Seq<char>>>;

/// The view of an optional optional string.
pub open spec fn tag_view(t: Option<Option<String>>) -> Option<Option<Seq<char>>> {
    match t {
        None => None,
        Some(None) => Some(None),
        Some(Some(s)) => Some(Some(s@)),
    }
}

/// `serde_json::from_str::<serde_json::Value>(text)`, then `get(key)` on the
/// value. Claimed of it: the result depends on `text` and `key` alone and is
/// `json_string_member(text, key)`.
#[verifier::external_body]
pub(crate) fn json_member_tag(text: &str, key: &str) -> (r: Option<Option<String>>)
    ensures
        tag_view(r) == json_string_member(text@, key@),
{
    match serde_json::from_str::<serde_json::Value>(text) {
        Ok(v) => match v.get(key) {
            Some(serde_json::Value::String(t)) => Some(Some(t.clone())),
            _ => Some(None),
        },
        Err(_) => None,
    }
}

} // verus!
