//! The values that an HTTP header may carry.

use vstd::prelude::*;
use vstd::utf8::{encode_utf8, is_ascii_chars, is_ascii_chars_encode_utf8};

verus! {

/// Whether `byte` may stand in the value of a header: a tab, or any byte
/// from the space upwards but DEL.
pub open spec fn is_header_value_byte(byte: u8) -> bool {
    byte >= 32 && byte != 127 || byte == 9
}

/// Whether `text` can be sent as the value of a header: every byte of its
/// UTF-8 encoding is one that a header value may hold.
pub open spec fn is_header_value(text: Seq<char>) -> bool {
    forall|i: int|
        0 <= i < encode_utf8(text).len() ==> is_header_value_byte(#[trigger] encode_utf8(text)[i])
}

/// Whether `c` is a visible ASCII character or a space.
pub open spec fn is_printable_ascii(c: char) -> bool {
    ' ' <= c <= '~'
}

/// A text of visible ASCII characters and spaces is a header value.
pub proof fn lemma_printable_ascii_is_header_value(text: Seq<char>)
    requires
        forall|i: int| 0 <= i < text.len() ==> is_printable_ascii(#[trigger] text[i]),
    ensures
        is_header_value(text),
{
    assert(is_ascii_chars(text));
    is_ascii_chars_encode_utf8(text);
    assert forall|i: int| 0 <= i < encode_utf8(text).len() implies is_header_value_byte(
        #[trigger] encode_utf8(text)[i],
    ) by {
        assert(is_printable_ascii(text[i]));
        assert(text[i] as u8 == encode_utf8(text)[i]);
    }
}

/// A text that holds a line feed is no header value.
pub proof fn lemma_line_feed_is_no_header_value(text: Seq<char>, at: int)
    requires
        0 <= at < text.len(),
        text[at] == '\n',
        is_ascii_chars(text),
    ensures
        !is_header_value(text),
{
    is_ascii_chars_encode_utf8(text);
    assert(text[at] as u8 == encode_utf8(text)[at]);
    assert(!is_header_value_byte(encode_utf8(text)[at]));
}

/// Calls `HeaderValue::from_str` of the `http` crate, as `reqwest` exports
/// it, and says whether it accepted `text`. It accepts a text exactly when
/// every byte of it is a tab or at least 32 and not 127.
#[verifier::external_body]
pub(crate) fn header_value_accepts(text: &str) -> (accepted: bool)
    ensures
        accepted == is_header_value(text@),
{
    reqwest::header::HeaderValue::from_str(text).is_ok()
}

} // verus!
