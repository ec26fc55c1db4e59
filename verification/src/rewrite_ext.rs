//! The rule that gives relative module specifiers an explicit extension.
//!
//! After compilation a relative import has to name the emitted `.js` file.
//! A specifier that names a package, or that carries an extension already, is
//! left alone. The rule reads the specifier's text and nothing else.

use regex::Regex;
use vstd::prelude::*;
use vstd::string::{StrSliceExecFns, StringExecFns};

verus! {

/// The regular expression that recognises a specifier with an extension.
pub const EXTENSION_PATTERN: &'static str = r"\.(ts|js)$";

/// The suffix that a rewritten specifier receives.
pub const EMITTED_SUFFIX: &'static str = ".js";

/// The suffix `.ts`.
pub open spec fn ts_suffix() -> Seq<char> {
    seq!['.', 't', 's']
}

/// The suffix `.js`.
pub open spec fn js_suffix() -> Seq<char> {
    seq!['.', 'j', 's']
}

/// Whether `specifier` is relative: whether it begins with a dot.
pub open spec fn is_relative(specifier: Seq<char>) -> bool {
    specifier.len() > 0 && specifier[0] == '.'
}

/// Whether `specifier` ends in `.ts` or in `.js`, in exactly these letters.
pub open spec fn has_extension(specifier: Seq<char>) -> bool {
    ts_suffix().is_suffix_of(specifier) || js_suffix().is_suffix_of(specifier)
}

/// What the rule makes of `specifier`: a relative specifier without an
/// extension gets `.js` appended, any other stays as it is.
pub open spec fn rewritten(specifier: Seq<char>) -> Seq<char> {
    if is_relative(specifier) && !has_extension(specifier) {
        specifier + js_suffix()
    } else {
        specifier
    }
}

/// `Regex::new` and `Regex::is_match` of the `regex` crate: whether the
/// expression `pattern` matches anywhere in `text`.
///
/// Not proved. The contract speaks of one expression only,
/// [`EXTENSION_PATTERN`]: an escaped dot, then `ts` or `js`, then `$`, which
/// without the multi-line flag matches at the end of the text alone. So the
/// search succeeds exactly on a text that ends in `.ts` or `.js`. The
/// expression compiles, so the call does not panic.
#[verifier::external_body]
fn is_match(pattern: &str, text: &str) -> (found: bool)
    requires
        pattern@ == EXTENSION_PATTERN@,
    ensures
        found == has_extension(text@),
{
    Regex::new(pattern).unwrap().is_match(text)
}

/// Applies the rule to the text of one specifier.
pub fn rewrite_filename(specifier: &str) -> (result: String)
    ensures
        result@ == rewritten(specifier@),
{
    let relative = !specifier.is_empty() && specifier.get_char(0) == '.';
    let extended = is_match(EXTENSION_PATTERN, specifier);
    if relative && !extended {
        proof {
            reveal_strlit(".js");
            assert(EMITTED_SUFFIX@ =~= js_suffix());
        }
        String::from_str(specifier).concat(EMITTED_SUFFIX)
    } else {
        String::from_str(specifier)
    }
}

/// The transform over a module's syntax tree. It visits two kinds of node,
/// import declarations and named re-exports, and rewrites the specifier of
/// each; every other node stays as it is.
pub struct RewriteExt;

impl RewriteExt {
    /// An import declaration, given by its specifier.
    pub fn fold_import_decl(&mut self, src: String) -> (folded: String)
        ensures
            folded@ == rewritten(src@),
    {
        rewrite_filename(src.as_str())
    }

    /// A named re-export, given by its specifier; one without a source module
    /// has none and stays without.
    pub fn fold_named_export(&mut self, src: Option<String>) -> (folded: Option<String>)
        ensures
            match src {
                Some(specifier) => folded matches Some(result) && result@ == rewritten(
                    specifier@,
                ),
                None => folded is None,
            },
    {
        match src {
            Some(specifier) => Some(rewrite_filename(specifier.as_str())),
            None => None,
        }
    }
}

/// A specifier that ends in `.ts` or `.js` comes back unchanged.
pub proof fn lemma_extension_kept(specifier: Seq<char>)
    requires
        has_extension(specifier),
    ensures
        rewritten(specifier) == specifier,
{
}

/// A specifier that does not begin with a dot comes back unchanged.
pub proof fn lemma_bare_untouched(specifier: Seq<char>)
    requires
        !is_relative(specifier),
    ensures
        rewritten(specifier) == specifier,
{
}

/// A relative specifier that ends neither in `.ts` nor in `.js` comes back
/// with `.js` appended.
pub proof fn lemma_relative_extended(specifier: Seq<char>)
    requires
        is_relative(specifier),
        !has_extension(specifier),
    ensures
        rewritten(specifier) == specifier + js_suffix(),
{
}

/// Whatever the rule returns ends in an extension or is no relative
/// specifier.
pub proof fn lemma_rewritten_settled(specifier: Seq<char>)
    ensures
        !is_relative(rewritten(specifier)) || has_extension(rewritten(specifier)),
{
    if is_relative(specifier) && !has_extension(specifier) {
        let result = specifier + js_suffix();
        assert(result.subrange(result.len() - 3, result.len() as int) =~= js_suffix());
    }
}

/// Applying the rule twice gives what applying it once gives.
pub proof fn lemma_rewrite_idempotent(specifier: Seq<char>)
    ensures
        rewritten(rewritten(specifier)) == rewritten(specifier),
{
    lemma_rewritten_settled(specifier);
}

} // verus!
