//! The calls into code that Verus has not read.
//!
//! Each item states what the crate takes on trust about the function it
//! calls. Nothing else in the crate is taken on trust.

use vstd::prelude::*;

verus! {

/// `reqwest::Url`, a parsed URL. Verus sees nothing inside a value of
/// it; the crate only carries such values from the parser to the caller.
#[verifier::external_type_specification]
#[verifier::external_body]
pub struct ExUrl(reqwest::Url);

/// Whether a text is an absolute URL, as `reqwest::Url::parse` judges it.
pub uninterp spec fn is_url(text: Seq<char>) -> bool;

/// Calls `reqwest::Url::parse` and gives the URL if the text is one. Whether
/// the parser accepts a text depends on the text alone; `is_url` is the name
/// of that verdict. Nothing is claimed about the URL that comes back.
#[verifier::external_body]
pub(crate) fn parse_url(text: &str) -> (url: Option<reqwest::Url>)
    ensures
        url is Some == is_url(text@),
{
    reqwest::Url::parse(text).ok()
}

/// The lower-case form of a text, as `str::to_lowercase` gives it.
pub uninterp spec fn lowercase(text: Seq<char>) -> Seq<char>;

/// Calls `str::to_lowercase`, which maps a text to its lower-case form by
/// the Unicode case mappings. The result depends on the text alone;
/// `lowercase` is its name.
#[verifier::external_body]
pub(crate) fn to_lowercase(text: &str) -> (lower: String)
    ensures
        lower@ == lowercase(text@),
{
    text.to_lowercase()
}

} // verus!
