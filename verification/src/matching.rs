//! Matching primitives of the dispatcher.
//!
//! Regular-expression matching and the probe for the special start
//! payload are done by outside crates; their results are named by
//! uninterpreted spec functions, and everything built on top of them —
//! in particular the anchored command pattern — is verified.

use vstd::prelude::*;
use vstd::string::StringExecFns;
use crate::text::dec_i64;
use crate::text::spec_dec_int;

verus! {

/// Whether a pattern is a valid regular expression.
pub uninterp spec fn pattern_compiles(pattern: Seq<char>) -> bool;

/// Whether a (valid) pattern matches somewhere in a text.
pub uninterp spec fn pattern_matches(pattern: Seq<char>, text: Seq<char>) -> bool;

/// The pattern that matches exactly a literal string: every regex
/// meta-character of the string escaped.
pub uninterp spec fn regex_escaped(s: Seq<char>) -> Seq<char>;

/// Whether a payload string parses as a JSON object whose `command`
/// member is exactly the string `start`.
pub uninterp spec fn is_start_payload(s: Seq<char>) -> bool;

/// Relies on `regex::Regex::new`: whether the pattern is a valid
/// regular expression. The result depends on the pattern alone.
#[verifier::external_body]
pub(crate) fn pattern_compiles_check(pattern: &str) -> (r: bool)
    ensures
        r == pattern_compiles(pattern@),
{
    regex::Regex::new(pattern).is_ok()
}

/// Relies on `regex::Regex::new` and `regex::Regex::is_match`: whether
/// the pattern, compiled, matches anywhere in the text; `false` also
/// when the pattern does not compile. The result depends on the pattern
/// and the text alone.
#[verifier::external_body]
pub(crate) fn pattern_match_check(pattern: &str, text: &str) -> (r: bool)
    ensures
        r == (pattern_compiles(pattern@) && pattern_matches(pattern@, text@)),
{
    match regex::Regex::new(pattern) {
        Ok(re) => re.is_match(text),
        Err(_) => false,
    }
}

/// Relies on `regex::escape`: the pattern that matches the given string
/// literally. The result depends on the characters alone.
#[verifier::external_body]
pub(crate) fn escape_pattern(s: &str) -> (r: String)
    ensures
        r@ == regex_escaped(s@),
{
    regex::escape(s)
}

/// Relies on `serde_json::from_str::<Value>`, `Value::get` and `Value`'s
/// string equality: whether the payload parses as a JSON object whose
/// `command` member equals `start`. The result depends on the text
/// alone.
#[verifier::external_body]
pub(crate) fn check_start_payload(payload: &str) -> (r: bool)
    ensures
        r == is_start_payload(payload@),
{
    match serde_json::from_str::<serde_json::Value>(payload) {
        Ok(v) => match v.get("command") {
            Some(c) => c == "start",
            None => false,
        },
        Err(_) => false,
    }
}

/// The anchored pattern a command is matched with: an optional leading
/// mention of the group (`[club<id>|...]`), then one or more repetitions
/// of the escaped command prefix followed by the escaped command name.
pub open spec fn spec_command_pattern(group_id: int, prefix_part: Seq<char>, command: Seq<
    char,
>) -> Seq<char> {
    "^( *\\[club"@ + spec_dec_int(group_id) + "\\|.*\\])?( *"@ + prefix_part + regex_escaped(
        command,
    ) + ")+"@
}

/// Builds the anchored command pattern; `prefix_part` must already be
/// escaped.
pub(crate) fn command_pattern(group_id: i32, prefix_part: &str, command: &str) -> (r: String)
    ensures
        r@ == spec_command_pattern(group_id as int, prefix_part@, command@),
{
    let mut s = "^( *\\[club".to_owned();
    s.append(dec_i64(group_id as i64).as_str());
    s.append("\\|.*\\])?( *");
    s.append(prefix_part);
    s.append(escape_pattern(command).as_str());
    s.append(")+");
    proof {
        assert(s@ =~= spec_command_pattern(group_id as int, prefix_part@, command@));
    }
    s
}

} // verus!
