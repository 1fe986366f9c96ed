//! Project filename validity and the derived export filename.
//!
//! A filename is a project file exactly when it ends with the fixed
//! two-part suffix. The baked export of a project goes to a second file:
//! same stem, the suffix's extension replaced.

use vstd::prelude::*;

verus! {

/// The fixed two-part suffix of a project filename.
pub open spec fn spec_project_suffix() -> Seq<char> {
    ".omagari.ron"@
}

/// Whether a filename ends with the project suffix. Nothing else about the
/// path is checked.
pub open spec fn spec_is_project_filename(s: Seq<char>) -> bool {
    s.len() >= 12 && s.subrange(s.len() - 12, s.len() as int) == spec_project_suffix()
}

/// Relies on regex's `Regex::new` and `Regex::is_match`: the pattern is a
/// literal anchored by `\z`, which matches only at the end of the haystack,
/// so the whole pattern matches exactly the strings that end with
/// ".omagari.ron". The pattern is constant and valid, so building it cannot
/// fail.
#[verifier::external_body]
fn suffix_regex_matches(filename: &str) -> (r: bool)
    ensures
        r == spec_is_project_filename(filename@),
{
    regex::Regex::new(r"\.omagari\.ron\z").unwrap().is_match(filename)
}

/// Whether a filename may hold a project: it must end with the project
/// suffix.
pub fn validate_project_filename(filename: &str) -> (r: bool)
    ensures
        r == spec_is_project_filename(filename@),
{
    suffix_regex_matches(filename)
}

/// The filename the baked export of a project is written to: the stem is
/// kept and the suffix's extension is replaced.
pub fn derive_export_filename(filename: &str) -> (r: String)
    requires
        spec_is_project_filename(filename@),
    ensures
        r@ == filename@.subrange(0, filename@.len() - 12) + ".omagari.baked.ron"@,
{
    let n = filename.unicode_len();
    let stem = filename.substring_char(0, n - 12);
    String::from_str(stem).concat(".omagari.baked.ron")
}

} // verus!
