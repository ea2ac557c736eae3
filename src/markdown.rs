use pulldown_cmark::{html, Options, Parser};
use vstd::prelude::*;

verus! {

/// The HTML that pulldown-cmark writes for a markdown text, with strikethrough,
/// tables, footnotes, task lists and smart punctuation switched on.
pub uninterp spec fn html_of(markdown: Seq<char>) -> Seq<char>;

/// Relies on pulldown_cmark's `Parser::new_ext` fed to `html::push_html`: the
/// output depends on the text and the fixed set of extensions alone.
#[verifier::external_body]
pub(crate) fn markdown_to_html(markdown: &str) -> (r: String)
    ensures
        r@ == html_of(markdown@),
{
    let mut options = Options::empty();
    options.insert(Options::ENABLE_STRIKETHROUGH);
    options.insert(Options::ENABLE_TABLES);
    options.insert(Options::ENABLE_FOOTNOTES);
    options.insert(Options::ENABLE_TASKLISTS);
    options.insert(Options::ENABLE_SMART_PUNCTUATION);
    let mut out = String::new();
    html::push_html(&mut out, Parser::new_ext(markdown, options));
    out
}

/// Rendering is a function of the text alone: equal texts render to the same
/// HTML, whenever and however often they are rendered.
pub proof fn lemma_render_deterministic(a: Seq<char>, b: Seq<char>)
    requires
        a == b,
    ensures
        html_of(a) == html_of(b),
{
}

} // verus!
