//! Text formats read by outside crates: JSON documents, URLs, and std's
//! trimming of whitespace.

use vstd::prelude::*;
use crate::text::{is_contiguous_part, text_result};

verus! {

/// What `serde_json` makes of a JSON document read as a `serde_json::Value`:
/// the value written back in compact form, or the parser's error text.
pub uninterp spec fn json_reading(text: Seq<char>) -> Result<Seq<char>, Seq<char>>;

/// Reads `text` with `serde_json::from_str::<serde_json::Value>` and writes the
/// value back with its `Display` (compact JSON); a parse error gives the
/// error's `Display` text. The contract claims only that the outcome is the one
/// named [`json_reading`] for the text.
#[verifier::external_body]
pub(crate) fn read_json_value(text: &str) -> (r: Result<String, String>)
    ensures
        text_result(r) == json_reading(text@),
{
    match serde_json::from_str::<serde_json::Value>(text) {
        Ok(v) => Ok(v.to_string()),
        Err(e) => Err(e.to_string()),
    }
}

/// The serialization that `url::Url::parse` gives a text it accepts as a URL,
/// or none where it refuses it.
pub uninterp spec fn url_serialization(input: Seq<char>) -> Option<Seq<char>>;

/// Parses `input` with `url::Url::parse` and returns the parsed URL's text
/// (its `Display`, which is its serialization), or nothing where the parser
/// refuses it. The contract claims only that the outcome is the one named
/// [`url_serialization`] for the input.
#[verifier::external_body]
pub(crate) fn parse_url(input: &str) -> (r: Option<String>)
    ensures
        r.deep_view() == url_serialization(input@),
{
    match url::Url::parse(input) {
        Ok(u) => Some(u.to_string()),
        Err(_) => None,
    }
}

/// Whether `c` is white space as `char::is_whitespace` has it: the Unicode
/// `White_Space` characters.
pub open spec fn is_white_space(c: char) -> bool {
    let n = c as u32;
    ||| 0x9 <= n <= 0xd
    ||| n == 0x20
    ||| n == 0x85
    ||| n == 0xa0
    ||| n == 0x1680
    ||| 0x2000 <= n <= 0x200a
    ||| n == 0x2028
    ||| n == 0x2029
    ||| n == 0x202f
    ||| n == 0x205f
    ||| n == 0x3000
}

/// A text without its leading white space.
pub open spec fn trim_start(text: Seq<char>) -> Seq<char>
    decreases text.len(),
{
    if text.len() > 0 && is_white_space(text[0]) {
        trim_start(text.drop_first())
    } else {
        text
    }
}

/// A text without its trailing white space.
pub open spec fn trim_end(text: Seq<char>) -> Seq<char>
    decreases text.len(),
{
    if text.len() > 0 && is_white_space(text.last()) {
        trim_end(text.drop_last())
    } else {
        text
    }
}

/// What `str::trim` leaves of a text: the text without its leading and
/// trailing white space.
pub open spec fn trimmed(text: Seq<char>) -> Seq<char> {
    trim_end(trim_start(text))
}

/// Removes leading and trailing whitespace with `str::trim`. The contract
/// claims what std documents: the result is the text without its leading and
/// trailing white space ([`trimmed`]), a contiguous part of the input.
#[verifier::external_body]
pub(crate) fn trim_text(text: &str) -> (r: &str)
    ensures
        r@ == trimmed(text@),
        is_contiguous_part(r@, text@),
{
    text.trim()
}

} // verus!
