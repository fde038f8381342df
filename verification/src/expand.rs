//! Expansion of the one input string into candidate file paths.
//!
//! An input that names an existing directory is rewritten to a pattern
//! matching every source file under it, recursively; any other input is
//! evaluated as a glob pattern exactly as given. Whether the input is a
//! directory is a fact about the filesystem, so the caller settles it and
//! hands the answer in. A syntactically invalid pattern is the fatal
//! error case; a valid pattern with zero matches is an empty batch.

use vstd::prelude::*;
use crate::batch::PathEntry;

verus! {

/// The glob pattern evaluated for one input: a directory is rewritten to
/// match all `.rs` files under it recursively; anything else is taken as
/// a pattern already.
pub open spec fn spec_glob_pattern(input: Seq<char>, is_dir: bool) -> Seq<char> {
    if is_dir {
        input + "/**/*.rs"@
    } else {
        input
    }
}

/// Rewrites one input string into the glob pattern to evaluate.
pub fn glob_pattern_for(input: &str, is_dir: bool) -> (r: String)
    ensures
        r@ == spec_glob_pattern(input@, is_dir),
{
    let mut r = String::from_str(input);
    if is_dir {
        r.append("/**/*.rs");
    }
    r
}

/// Whether the glob crate accepts this pattern text. Its source settles
/// the verdict by compiling the pattern alone, before it looks at any
/// file, so the verdict is a function of the text.
pub uninterp spec fn glob_pattern_ok(pattern: Seq<char>) -> bool;

/// Relies on `glob::glob`: `Err` carries the parse error of a
/// syntactically invalid pattern, and that verdict is settled by the
/// pattern text alone; `Ok` walks the filesystem, yielding the matched
/// paths and, for a path that could not be read during matching, that
/// path with its error. Which entries come back depends on the disk, so
/// nothing more is assumed of them.
#[verifier::external_body]
fn run_glob(pattern: &str) -> (r: Result<Vec<PathEntry>, String>)
    ensures
        r is Ok <==> glob_pattern_ok(pattern@),
{
    let paths = match glob::glob(pattern) {
        Ok(paths) => paths,
        Err(e) => return Err(e.to_string()),
    };
    Ok(paths.map(|entry| match entry {
        Ok(path) => PathEntry::Matched(path.display().to_string()),
        Err(e) => PathEntry::Unreadable {
            path: e.path().display().to_string(),
            message: e.error().to_string(),
        },
    }).collect())
}

/// Expands one input into its candidate entries: the input is rewritten
/// with [`glob_pattern_for`] and the resulting pattern evaluated against
/// the filesystem. Which entries come back is the filesystem's answer;
/// `Err` is the fatal case, exactly when the rewritten pattern does not
/// parse.
pub fn expand_input(input: &str, is_dir: bool) -> (r: Result<Vec<PathEntry>, String>)
    ensures
        r is Ok <==> glob_pattern_ok(spec_glob_pattern(input@, is_dir)),
{
    let pattern = glob_pattern_for(input, is_dir);
    run_glob(pattern.as_str())
}

} // verus!
