//! Names of saved conversations, and the user's answer to a confirmation.
use vstd::prelude::*;
use vstd::string::*;

use crate::text::{trim, trim_seq};

verus! {

/// The pattern that a conversation name must match.
pub const NAME_PATTERN: &'static str = "^[a-zA-Z0-9_-]+$";

/// A letter or digit of ASCII, `_` or `-`.
pub open spec fn is_name_char(c: char) -> bool {
    ('a' <= c && c <= 'z') || ('A' <= c && c <= 'Z') || ('0' <= c && c <= '9') || c == '_' || c
        == '-'
}

/// What the pattern accepts: one name character or more, and nothing else.
pub open spec fn is_valid_name(s: Seq<char>) -> bool {
    s.len() > 0 && forall|i: int| 0 <= i < s.len() ==> is_name_char(#[trigger] s[i])
}

/// Relies on `regex::Regex::new` and `regex::Regex::is_match`: the pattern
/// `^[a-zA-Z0-9_-]+$` compiles, and matches exactly the non-empty texts made only of
/// ASCII letters, digits, `_` and `-` (without multi-line mode, `$` is the end of the text).
#[verifier::external_body]
fn matches_name_pattern(pattern: &str, text: &str) -> (r: bool)
    requires
        pattern@ == NAME_PATTERN@,
    ensures
        r == is_valid_name(text@),
{
    match regex::Regex::new(pattern) {
        Ok(re) => re.is_match(text),
        Err(_) => false,
    }
}

pub const INVALID_NAME_START: &'static str = "Invalid conversation name: ";

pub const INVALID_NAME_END: &'static str =
    ". Use only letters, numbers, underscores, and hyphens.";

/// The name without surrounding white space when it is made only of letters,
/// digits, underscores and hyphens; else a message that quotes it.
pub fn valid_conversation_name(s: &str) -> (r: Result<String, String>)
    ensures
        is_valid_name(trim_seq(s@)) <==> r is Ok,
        r matches Ok(n) ==> n@ == trim_seq(s@),
        r matches Err(m) ==> m@ == INVALID_NAME_START@ + trim_seq(s@) + INVALID_NAME_END@,
{
    let trimmed = trim(s);
    if matches_name_pattern(NAME_PATTERN, trimmed.as_str()) {
        Ok(trimmed)
    } else {
        let mut m = String::from_str(INVALID_NAME_START);
        m.append(trimmed.as_str());
        m.append(INVALID_NAME_END);
        Err(m)
    }
}

/// The user agrees to go on: the answer is exactly `Y` once trimmed.
pub fn user_confirms(answer: &str) -> (r: bool)
    ensures
        r == (trim_seq(answer@) == "Y"@),
{
    let t = trim(answer);
    crate::text::same_text(t.as_str(), "Y")
}

} // verus!
