//! Text helpers: comparing string slices and shortening text for log lines.

use vstd::prelude::*;
use vstd::string::StringSliceAdditionalSpecFns;
use vstd::utf8::{
    decode_utf8, decode_utf8_encode_utf8, encode_utf8, encode_utf8_decode_utf8,
    encode_utf8_valid_utf8, is_ascii_chars, is_ascii_chars_encode_utf8, is_char_boundary,
    valid_utf8_split,
};

verus! {

/// Compares two string slices by their characters.
pub fn str_eq(a: &str, b: &str) -> (r: bool)
    ensures
        r == (a@ == b@),
{
    let x = a.as_bytes();
    let y = b.as_bytes();
    if x.len() != y.len() {
        return false;
    }
    let n = x.len();
    let mut i: usize = 0;
    while i < n
        invariant
            n == x@.len(),
            n == y@.len(),
            x@ == a.spec_bytes(),
            y@ == b.spec_bytes(),
            i <= n,
            forall|k: int| 0 <= k < i ==> x@[k] == y@[k],
        decreases n - i,
    {
        if x[i] != y[i] {
            return false;
        }
        i = i + 1;
    }
    proof {
        assert(x@ =~= y@);
        encode_utf8_decode_utf8(a@);
        encode_utf8_decode_utf8(b@);
    }
    true
}

/// `part` is a contiguous run of the characters of `whole`.
pub open spec fn is_contiguous_part(part: Seq<char>, whole: Seq<char>) -> bool {
    exists|i: int, j: int| 0 <= i <= j <= whole.len() && part == whole.subrange(i, j)
}

/// The text values of a result whose both sides are texts.
pub open spec fn text_result(r: Result<String, String>) -> Result<Seq<char>, Seq<char>> {
    match r {
        Ok(a) => Ok(a@),
        Err(b) => Err(b@),
    }
}

/// How many bytes of the allowance a shortened text gives up to its marker.
pub const TRUNCATION_ALLOWANCE: usize = 20;

/// The byte length to which a text longer than `max_len` bytes is cut: 20
/// bytes short of `max_len`, or nothing where `max_len` is smaller.
pub open spec fn truncation_cut(max_len: usize) -> int {
    if max_len >= TRUNCATION_ALLOWANCE {
        max_len - TRUNCATION_ALLOWANCE
    } else {
        0
    }
}

/// A text shortened for a log line: a text of at most `max_len` bytes stays as
/// it is; a longer one keeps its first bytes up to the cut, followed by a
/// marker that says it was cut.
pub open spec fn truncated_text(s: Seq<char>, max_len: usize) -> Seq<char> {
    let bytes = encode_utf8(s);
    if bytes.len() > max_len {
        decode_utf8(bytes.subrange(0, truncation_cut(max_len))) + "... (truncated)"@
    } else {
        s
    }
}

/// Shortens a text for a log line, as [`truncated_text`] says. A text that is
/// cut must be cut between characters.
pub fn truncate_string(s: &str, max_len: usize) -> (r: String)
    requires
        s.spec_bytes().len() > max_len ==> is_char_boundary(s.spec_bytes(), truncation_cut(max_len)),
    ensures
        r@ == truncated_text(s@, max_len),
{
    if s.as_bytes().len() > max_len {
        let cut = max_len.saturating_sub(TRUNCATION_ALLOWANCE);
        let (head, _) = s.split_at(cut);
        proof {
            encode_utf8_decode_utf8(head@);
        }
        let mut r = head.to_owned();
        r.append("... (truncated)");
        r
    } else {
        s.to_owned()
    }
}

/// The encoding of two texts one after the other is the two encodings one
/// after the other.
proof fn lemma_encode_utf8_concat(a: Seq<char>, b: Seq<char>)
    ensures
        encode_utf8(a + b) == encode_utf8(a) + encode_utf8(b),
    decreases a.len(),
{
    if a.len() == 0 {
        assert(a + b =~= b);
        assert(encode_utf8(a) + encode_utf8(b) =~= encode_utf8(b));
    } else {
        assert((a + b).drop_first() =~= a.drop_first() + b);
        assert((a + b)[0] == a[0]);
        lemma_encode_utf8_concat(a.drop_first(), b);
        let h = vstd::utf8::encode_scalar(a[0] as u32);
        assert(h + (encode_utf8(a.drop_first()) + encode_utf8(b)) =~= (h + encode_utf8(a.drop_first()))
            + encode_utf8(b));
    }
}

/// A text that is cut for a log line fits the allowance: where `max_len` leaves
/// room for the marker, the shortened text takes the kept bytes and the
/// marker's fifteen bytes, which is within `max_len`.
pub proof fn law_cut_text_fits_the_allowance(s: Seq<char>, max_len: usize)
    requires
        encode_utf8(s).len() > max_len,
        max_len >= TRUNCATION_ALLOWANCE,
        is_char_boundary(encode_utf8(s), truncation_cut(max_len)),
    ensures
        encode_utf8(truncated_text(s, max_len)).len() == truncation_cut(max_len) + 15,
        encode_utf8(truncated_text(s, max_len)).len() <= max_len,
{
    let bytes = encode_utf8(s);
    let prefix = bytes.subrange(0, truncation_cut(max_len));
    let marker = "... (truncated)"@;
    encode_utf8_valid_utf8(s);
    valid_utf8_split(bytes, truncation_cut(max_len));
    decode_utf8_encode_utf8(prefix);
    lemma_encode_utf8_concat(decode_utf8(prefix), marker);
    reveal_strlit("... (truncated)");
    assert(is_ascii_chars(marker));
    is_ascii_chars_encode_utf8(marker);
}

} // verus!
