//! The mirrored documentation: where the file of a page lies, and what of its
//! text is shown.

use vstd::prelude::*;
use vstd::string::StringExecFns;
use crate::text::{ascii_lower, opt_text, replace_each, replace_text};

verus! {

/// The file of a page of the documentation: the base directory, then the
/// page's path in small letters without its `docs` segment, then the name of
/// the content file.
pub open spec fn document_file(base: Seq<char>, url_path: Seq<char>) -> Seq<char> {
    base + replace_each(ascii_lower(url_path), "/docs/"@, "/"@) + "/index.md"@
}

/// The pattern of a cross-reference macro with one quoted argument.
pub open spec fn cross_reference_pattern() -> Seq<char> {
    "\\{\\{domxref\\(\"(?P<arg>[^\"]+)\"\\)\\}\\}"@
}

/// What a cross-reference macro is replaced by: its argument as inline code.
pub open spec fn cross_reference_replacement() -> Seq<char> {
    "`$arg`"@
}

/// The pattern of any macro in double curly braces.
pub open spec fn macro_pattern() -> Seq<char> {
    "\\{\\{[^}]+\\}\\}"@
}

/// What `Regex::replace_all` of the regex crate returns for a pattern, a text
/// and a replacement, and `None` where `Regex::new` refuses the pattern.
pub uninterp spec fn regex_replaced(
    pattern: Seq<char>,
    haystack: Seq<char>,
    replacement: Seq<char>,
) -> Option<Seq<char>>;

/// The text of a page as it is shown: every cross-reference macro replaced by
/// its argument as inline code, then every macro that is left taken out.
pub open spec fn document_text(contents: Seq<char>) -> Option<Seq<char>> {
    match regex_replaced(cross_reference_pattern(), contents, cross_reference_replacement()) {
        Some(linked) => regex_replaced(macro_pattern(), linked, Seq::empty()),
        None => None,
    }
}

/// `Regex::new` and `Regex::replace_all` of the regex crate: the pattern is
/// compiled and every non-overlapping match in `haystack` is replaced by
/// `replacement`, in which `$name` stands for a capture group. Nothing is
/// claimed but that the result depends on the three texts alone. `None` stands
/// for a pattern that the crate does not compile.
#[verifier::external_body]
fn regex_replace_all(pattern: &str, haystack: &str, replacement: &str) -> (r: Option<String>)
    ensures
        opt_text(r) == regex_replaced(pattern@, haystack@, replacement@),
{
    match regex::Regex::new(pattern) {
        Ok(re) => Some(re.replace_all(haystack, replacement).into_owned()),
        Err(_) => None,
    }
}

/// Where the file of a documentation page lies under `base`.
pub fn document_path(base: &str, url_path: &str) -> (r: String)
    ensures
        r@ == document_file(base@, url_path@),
{
    let lowered = url_path.to_ascii_lowercase();
    proof {
        reveal_strlit("/docs/");
    }
    let relative = replace_text(lowered.as_str(), "/docs/", "/");
    let mut r = base.to_owned();
    r.append(relative.as_str());
    r.append("/index.md");
    r
}

/// Prepares the text of a documentation page for showing. `None` is returned
/// only where the regex engine refuses one of the two patterns.
pub fn render_document(contents: &str) -> (r: Option<String>)
    ensures
        opt_text(r) == document_text(contents@),
{
    match regex_replace_all("\\{\\{domxref\\(\"(?P<arg>[^\"]+)\"\\)\\}\\}", contents, "`$arg`") {
        Some(linked) => {
            proof {
                reveal_strlit("");
                assert(""@ =~= Seq::<char>::empty());
            }
            regex_replace_all("\\{\\{[^}]+\\}\\}", linked.as_str(), "")
        },
        None => None,
    }
}

} // verus!
