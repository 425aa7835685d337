use vstd::prelude::*;

verus! {

/// The HTML that `pulldown_cmark` renders for a Markdown text, tables enabled.
pub uninterp spec fn cmark_html(md: Seq<char>) -> Seq<char>;

/// The HTML that `ammonia` keeps of an HTML text under its default policy.
pub uninterp spec fn sanitized_html(html: Seq<char>) -> Seq<char>;

/// The safe HTML shown for a Markdown text.
pub open spec fn html_of(md: Seq<char>) -> Seq<char> {
    sanitized_html(cmark_html(md))
}

/// Relies on `pulldown_cmark::Parser::new_ext` with tables enabled and
/// `pulldown_cmark::html::push_html` into an empty string: the HTML depends on
/// the text alone.
#[verifier::external_body]
fn render_commonmark(md: &str) -> (r: String)
    ensures
        r@ == cmark_html(md@),
{
    let mut options = pulldown_cmark::Options::empty();
    options.insert(pulldown_cmark::Options::ENABLE_TABLES);
    let parser = pulldown_cmark::Parser::new_ext(md, options);
    let mut html = String::new();
    pulldown_cmark::html::push_html(&mut html, parser);
    html
}

/// Relies on `ammonia::clean`: the default policy's result depends on the
/// HTML text alone.
#[verifier::external_body]
fn clean_html(html: &str) -> (r: String)
    ensures
        r@ == sanitized_html(html@),
{
    ammonia::clean(html)
}

/// Renders Markdown to HTML and strips whatever the sanitizer deems harmful.
pub fn md_to_html(md: &str) -> (r: String)
    ensures
        r@ == html_of(md@),
{
    let unsafe_html = render_commonmark(md);
    clean_html(unsafe_html.as_str())
}

} // verus!
