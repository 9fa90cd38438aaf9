//! Percent-encoding of text for query strings and path fragments.

use vstd::prelude::*;
use vstd::utf8::encode_utf8;

verus! {

/// Bytes that are left as they are: ASCII letters and digits, `-`, `.`, `_` and `~`.
pub open spec fn is_unreserved(b: u8) -> bool {
    (48 <= b <= 57) || (65 <= b <= 90) || (97 <= b <= 122) || b == 45 || b == 46 || b == 95
        || b == 126
}

/// Upper-case hexadecimal digit for a value below 16.
pub open spec fn hex_digit(d: u8) -> char {
    if d < 10 {
        (48 + d) as char
    } else {
        (55 + d) as char
    }
}

/// Percent-encodes every byte except the unreserved ones as `%` and two upper-case hex digits.
pub open spec fn percent_encode(bytes: Seq<u8>) -> Seq<char>
    decreases bytes.len(),
{
    if bytes.len() == 0 {
        Seq::empty()
    } else {
        let b = bytes[0];
        let head = if is_unreserved(b) {
            seq![b as char]
        } else {
            seq!['%', hex_digit(b / 16), hex_digit(b % 16)]
        };
        head + percent_encode(bytes.drop_first())
    }
}

/// The percent-encoding of the UTF-8 bytes of `s`.
pub open spec fn url_encoded(s: Seq<char>) -> Seq<char> {
    percent_encode(encode_utf8(s))
}

/// Calls `urlencoding::encode`, which percent-encodes the UTF-8 bytes of its
/// argument: letters, digits, `-`, `.`, `_` and `~` stay, every other byte becomes
/// `%` followed by two upper-case hex digits. The contract states exactly that.
#[verifier::external_body]
pub(crate) fn encode(value: &str) -> (r: String)
    ensures
        r@ == url_encoded(value@),
{
    urlencoding::encode(value).into_owned()
}

} // verus!
