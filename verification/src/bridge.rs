//! The calls into other crates: grapheme segmentation and regular expressions.
//!
//! Nothing here is proved. Each function states what the crate it calls
//! documents, over a name for the crate's result.

use vstd::prelude::*;
use crate::ir::strings_view;

verus! {

/// The extended grapheme clusters of a text, in order, as UAX #29 defines them.
pub uninterp spec fn grapheme_clusters(s: Seq<char>) -> Seq<Seq<char>>;

/// Whether a pattern is a regular expression that compiles within the default
/// size limit.
pub uninterp spec fn regex_compiles(pattern: Seq<char>) -> bool;

/// Whether the regular expression compiled from a pattern matches anywhere in
/// a text.
pub uninterp spec fn regex_is_match(pattern: Seq<char>, text: Seq<char>) -> bool;

/// The error that a pattern which does not compile is refused with.
#[verifier::external_type_specification]
#[verifier::external_body]
pub struct ExRegexError(regex::Error);

/// Calls `UnicodeSegmentation::graphemes` with `is_extended` set and collects
/// the clusters it yields, each as an owned string. The result depends on the
/// text alone.
#[verifier::external_body]
pub(crate) fn graphemes(s: &str) -> (r: Vec<String>)
    ensures
        strings_view(r@) == grapheme_clusters(s@),
{
    unicode_segmentation::UnicodeSegmentation::graphemes(s, true).map(|g| g.to_string()).collect()
}

/// Calls `Regex::new` on the pattern and, where it compiles, `Regex::is_match`
/// on the text. An error means that the pattern did not compile; otherwise the
/// result says whether the expression matches somewhere in the text. Both
/// depend on the arguments alone.
#[verifier::external_body]
pub(crate) fn regex_match(pattern: &str, text: &str) -> (r: Result<bool, regex::Error>)
    ensures
        r.is_ok() == regex_compiles(pattern@),
        r matches Ok(found) ==> found == regex_is_match(pattern@, text@),
{
    match regex::Regex::new(pattern) {
        Ok(re) => Ok(re.is_match(text)),
        Err(e) => Err(e),
    }
}

} // verus!
