//! The name of the file that the rewritten catalog is written to.

use vstd::prelude::*;
use vstd::string::StringExecFns;

verus! {

/// Extension of a catalog file.
pub const CATALOG_EXTENSION: &'static str = ".json";

/// What the name of the rewritten catalog ends in.
pub const OUTPUT_SUFFIX: &'static str = "-modified-w-embedded-imgs.json";

/// A name without any trailing repetition of `suffix`.
pub open spec fn without_trailing(name: Seq<char>, suffix: Seq<char>) -> Seq<char>
    decreases name.len(),
{
    if suffix.len() > 0 && suffix.is_suffix_of(name) {
        without_trailing(name.take(name.len() - suffix.len()), suffix)
    } else {
        name
    }
}

/// `str::trim_end_matches` with a string as the pattern removes that string
/// from the end of the name as often as the name ends in it.
#[verifier::external_body]
fn trim_trailing<'a>(name: &'a str, suffix: &str) -> (trimmed: &'a str)
    requires
        suffix@.len() > 0,
    ensures
        trimmed@ == without_trailing(name@, suffix@),
{
    name.trim_end_matches(suffix)
}

/// The name of the rewritten catalog: the input name without its catalog
/// extension, however often repeated, followed by the output suffix.
pub open spec fn output_name_spec(input: Seq<char>) -> Seq<char> {
    without_trailing(input, CATALOG_EXTENSION@) + OUTPUT_SUFFIX@
}

/// Names the file that the rewritten catalog of `input` is written to.
pub fn output_name(input: &str) -> (name: String)
    ensures
        name@ == output_name_spec(input@),
{
    proof {
        reveal_strlit(".json");
    }
    let mut name = trim_trailing(input, CATALOG_EXTENSION).to_owned();
    name.append(OUTPUT_SUFFIX);
    name
}

} // verus!
