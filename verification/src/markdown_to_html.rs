//! The Markdown-render tool capability. The conversion itself is done by an
//! outside renderer with a GitHub-flavored rule set; this module decides the
//! tool's outcome and names the renderer's result so callers can state it.

use vstd::prelude::*;

use crate::errors::ErrorKind;

verus! {

/// The HTML the GitHub-flavored renderer produces for a Markdown text. The
/// result depends on the input text alone.
pub uninterp spec fn html_of(contents: Seq<char>) -> Seq<char>;

/// Relies on `markdown::to_html_with_options` with `markdown::Options::gfm()`:
/// a deterministic conversion of the input text alone. Its documentation and
/// source allow a failure only for the MDX constructs, which the
/// GitHub-flavored options do not enable, so the call always succeeds here;
/// the error arm stays as the mapping should the renderer ever fail.
#[verifier::external_body]
fn md_to_html(contents: &str) -> (r: Result<String, String>)
    ensures
        r is Ok,
        r matches Ok(h) ==> h@ == html_of(contents@),
{
    match markdown::to_html_with_options(contents, &markdown::Options::gfm()) {
        Ok(h) => Ok(h),
        Err(e) => Err(e.to_string()),
    }
}

/// Deserialized parameters of the render tool.
pub struct Params {
    /// The Markdown text to be converted to HTML.
    pub contents: String,
}

/// The Markdown-render tool capability.
pub struct MarkdownToHTML {}

impl MarkdownToHTML {
    /// The unique name the tool is registered and advertised under.
    pub fn name() -> (r: &'static str)
        ensures
            r@ == "markdown_to_html"@,
    {
        "markdown_to_html"
    }

    /// The description advertised to the model.
    pub fn description() -> (r: &'static str)
        ensures
            r@ == "Convert Markdown to HTML"@,
    {
        "Convert Markdown to HTML"
    }

    /// Render a Markdown text: empty input is rejected with `EmptyContent`;
    /// any other input is converted, and its HTML is returned. A failure of
    /// the renderer would be surfaced as `ConversionError`, but under the
    /// GitHub-flavored options none can occur.
    pub fn render(contents: &str) -> (r: Result<String, ErrorKind>)
        ensures
            contents@.len() == 0 ==> r == Err::<String, ErrorKind>(ErrorKind::EmptyContent),
            contents@.len() > 0 ==> (r matches Ok(h) && h@ == html_of(contents@)),
    {
        if contents.unicode_len() == 0 {
            return Err(ErrorKind::EmptyContent);
        }
        match md_to_html(contents) {
            Ok(h) => Ok(h),
            Err(_) => Err(ErrorKind::ConversionError),
        }
    }
}

} // verus!
