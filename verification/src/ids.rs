//! Entity IDs: the UUID syntax that entity and relation operations check.
use vstd::prelude::*;

verus! {

/// A hexadecimal digit, in either case.
pub open spec fn hex_char(c: char) -> bool {
    ('0' <= c && c <= '9') || ('a' <= c && c <= 'f') || ('A' <= c && c <= 'F')
}

/// The hyphenated form: 36 characters, hyphens at 8, 13, 18 and 23, and
/// hexadecimal digits everywhere else.
pub open spec fn hyphenated_uuid(s: Seq<char>) -> bool {
    &&& s.len() == 36
    &&& forall|k: int| 0 <= k < 36 ==> if k == 8 || k == 13 || k == 18 || k == 23 {
        #[trigger] s[k] == '-'
    } else {
        hex_char(s[k])
    }
}

/// Whether `s` begins with `urn:uuid:`, its letters in either case.
pub open spec fn urn_prefix(s: Seq<char>) -> bool {
    &&& s.len() >= 9
    &&& (s[0] == 'u' || s[0] == 'U') && (s[1] == 'r' || s[1] == 'R') && (s[2] == 'n' || s[2] == 'N')
    &&& s[3] == ':'
    &&& (s[4] == 'u' || s[4] == 'U') && (s[5] == 'u' || s[5] == 'U') && (s[6] == 'i' || s[6] == 'I')
    &&& (s[7] == 'd' || s[7] == 'D')
    &&& s[8] == ':'
}

/// The texts the `uuid` crate's `Uuid::parse_str` accepts: 32 hexadecimal
/// digits; the hyphenated form; the hyphenated form in braces; or the
/// hyphenated form after a `urn:uuid:` prefix (any letter case).
pub open spec fn uuid_text(s: Seq<char>) -> bool {
    ||| s.len() == 32 && forall|k: int| 0 <= k < 32 ==> hex_char(#[trigger] s[k])
    ||| hyphenated_uuid(s)
    ||| s.len() == 38 && s[0] == '{' && s[37] == '}' && hyphenated_uuid(s.subrange(1, 37))
    ||| s.len() == 45 && urn_prefix(s) && hyphenated_uuid(s.skip(9))
}

/// `uuid::Uuid::parse_str(s).is_ok()`: whether `s` parses as a UUID. The
/// contract claims that the answer is `uuid_text` of the text: the parser
/// dispatches on the byte length (32, 36, 38 or 45), checks the hyphens,
/// braces or case-insensitive `urn:uuid:` prefix, and decodes the 32
/// digits, accepting `0-9`, `a-f` and `A-F`. Every accepted text is ASCII,
/// so its length in bytes is its length in characters.
#[verifier::external_body]
pub(crate) fn parses_as_uuid(s: &str) -> (b: bool)
    ensures
        b == uuid_text(s@),
{
    uuid::Uuid::parse_str(s).is_ok()
}

} // verus!
