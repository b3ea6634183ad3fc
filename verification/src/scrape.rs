//! Anti-forgery token scraping.
//!
//! Both protected POST endpoints of the secondary provider demand a per-page
//! token carried by a hidden `<input>` named `_token`.  Locating that input
//! in an HTML document is delegated to the outside HTML parser; turning its
//! outcome into the library's result is verified.

use crate::errors::LockdownError;
use vstd::prelude::*;

verus! {

/// The value of the first hidden input named `_token` in the document, if
/// there is one.  The result depends on the HTML text alone.
pub uninterp spec fn hidden_token_of(html: Seq<char>) -> Option<Seq<char>>;

/// Relies on scraper's `Html::parse_document`, `Selector::parse` and
/// `ElementRef::attr`: the result is the `value` attribute of the first
/// element matching `input[type='hidden'][name='_token']`, and is a function
/// of the document text alone.
#[verifier::external_body]
fn scrape_hidden_token(html: &str) -> (r: Option<String>)
    ensures
        r is Some <==> hidden_token_of(html@) is Some,
        r matches Some(t) ==> Some(t@) == hidden_token_of(html@),
{
    let document = scraper::Html::parse_document(html);
    let selector = scraper::Selector::parse("input[type='hidden'][name='_token']").ok()?;
    let element = document.select(&selector).next()?;
    Some(element.attr("value")?.to_string())
}

/// What the scrape outcome means for the run: a found token is returned as
/// is, a missing one is the `TokenNotFound` error.
pub fn token_from_scrape(found: Option<String>) -> (r: Result<String, LockdownError>)
    ensures
        found matches Some(f) ==> (r matches Ok(t) && t == f),
        found is None ==> (r matches Err(e) && e == LockdownError::TokenNotFound),
{
    match found {
        Some(t) => Ok(t),
        None => Err(LockdownError::TokenNotFound),
    }
}

/// Scrape the anti-forgery token out of a fetched page.
pub fn extract_csrf_token(html: &str) -> (r: Result<String, LockdownError>)
    ensures
        hidden_token_of(html@) matches Some(t) ==> (r matches Ok(f) && f@ == t),
        hidden_token_of(html@) is None ==> (r matches Err(e) && e
            == LockdownError::TokenNotFound),
{
    token_from_scrape(scrape_hidden_token(html))
}

} // verus!
