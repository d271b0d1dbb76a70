//! The markup parser: CommonMark with the strikethrough extension, rendered
//! to an HTML fragment by `pulldown-cmark`.

use vstd::prelude::*;
use pulldown_cmark::{html, Options, Parser};

verus! {

/// The HTML fragment that `pulldown-cmark` renders for a markup text when
/// strikethrough is the one extension switched on.
pub uninterp spec fn rendered_fragment(markup: Seq<char>) -> Seq<char>;

/// Calls `pulldown_cmark::Parser::new_ext` with
/// `Options::ENABLE_STRIKETHROUGH` on `markup` and hands the events to
/// `pulldown_cmark::html::push_html`.
///
/// Nothing is proved of the parser. The contract claims only that what it
/// renders depends on the markup alone, and gives that result its name.
/// The parser rejects no input: markup that it cannot make sense of comes
/// out as plain text.
#[verifier::external_body]
pub(crate) fn render_fragment(markup: &str) -> (fragment: String)
    ensures
        fragment@ == rendered_fragment(markup@),
{
    let mut options = Options::empty();
    options.insert(Options::ENABLE_STRIKETHROUGH);
    let parser = Parser::new_ext(markup, options);
    let mut fragment = String::new();
    html::push_html(&mut fragment, parser);
    fragment
}

} // verus!
