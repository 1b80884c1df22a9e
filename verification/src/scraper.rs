//! The web-scrape tool capability. The HTTP fetch happens at the program's
//! edge; this module converts the fetched HTML into readable text through an
//! outside converter and decides the tool's outcome from the fetch result.

use vstd::prelude::*;

use crate::errors::ErrorKind;

verus! {

/// The Markdown-like text the HTML-to-text converter extracts from an HTML
/// document. The result depends on the document alone.
pub uninterp spec fn text_of_html(html: Seq<char>) -> Seq<char>;

/// Relies on `html2md::parse_html`: a deterministic conversion of an HTML
/// document into Markdown-like text.
#[verifier::external_body]
fn html_to_text(html: &str) -> (r: String)
    ensures
        r@ == text_of_html(html@),
{
    html2md::parse_html(html)
}

/// Deserialized parameters of the scrape tool.
pub struct Params {
    /// The URL of the website to scrape.
    pub website: String,
}

/// The web-scrape tool capability.
pub struct Scraper {}

impl Scraper {
    /// A scraper; it keeps no state between calls.
    pub fn new() -> (r: Scraper)
        ensures
            r == (Scraper {  }),
    {
        Scraper {  }
    }

    /// The unique name the tool is registered and advertised under.
    pub fn name() -> (r: &'static str)
        ensures
            r@ == "website_scraper"@,
    {
        "website_scraper"
    }

    /// The description advertised to the model.
    pub fn description() -> (r: &'static str)
        ensures
            r@ == "Scrapes text content from websites and splits it into manageable chunks."@,
    {
        "Scrapes text content from websites and splits it into manageable chunks."
    }

    /// Convert a fetched HTML body into readable text.
    pub fn convert(body: &str) -> (r: String)
        ensures
            r@ == text_of_html(body@),
    {
        html_to_text(body)
    }

    /// Decide the tool's outcome from the fetch result: the converted text of
    /// the fetched body, or `FetchError` when the fetch itself failed.
    pub fn outcome(fetch: Result<String, String>) -> (r: Result<String, ErrorKind>)
        ensures
            fetch matches Ok(body) ==> (r matches Ok(t) && t@ == text_of_html(body@)),
            fetch is Err ==> r == Err::<String, ErrorKind>(ErrorKind::FetchError),
    {
        match fetch {
            Ok(body) => Ok(Scraper::convert(body.as_str())),
            Err(_) => Err(ErrorKind::FetchError),
        }
    }
}

impl Default for Scraper {
    /// A scraper with its (empty) default state.
    fn default() -> (r: Scraper)
        ensures
            r == (Scraper {  }),
    {
        Scraper::new()
    }
}

} // verus!
