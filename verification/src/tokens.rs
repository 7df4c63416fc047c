//! The tokens that the portal hands out with each page and wants back with
//! the next request.

use crate::error::CrawlError;
use crate::html::{first_attr, first_attr_of};
use crate::portal::{CSRF_SELECTOR, TOKEN_SELECTOR, WEEK_SELECTOR};
use vstd::prelude::*;

verus! {

/// The name of the attribute that holds a form field's value.
pub const VALUE: &'static str = "value";

/// What a page of the search session carries for the next request.
#[derive(Clone, Debug, PartialEq, Eq)]
pub struct Tokens {
    /// The anti-CSRF token.
    pub csrf: String,
    /// The legacy session token, where the page has one.
    pub legacy: Option<String>,
    /// The value of the current week in the week selector, where the page
    /// has one.
    pub week: Option<String>,
}

/// The view of a [`Tokens`].
pub struct TokensView {
    pub csrf: Seq<char>,
    pub legacy: Option<Seq<char>>,
    pub week: Option<Seq<char>>,
}

impl View for Tokens {
    type V = TokensView;

    open spec fn view(&self) -> TokensView {
        TokensView {
            csrf: self.csrf@,
            legacy: self.legacy.deep_view(),
            week: self.week.deep_view(),
        }
    }
}

/// The tokens made of what was found on a page. The anti-CSRF token is
/// required on every page, the week on the first page of a session.
pub open spec fn tokens_from_spec(
    csrf: Option<Seq<char>>,
    legacy: Option<Seq<char>>,
    week: Option<Seq<char>>,
    first_page: bool,
) -> Option<TokensView> {
    if csrf is None || (first_page && week is None) {
        None
    } else {
        Some(TokensView { csrf: csrf->0, legacy, week })
    }
}

/// Puts together what was found on a page. Fails when the anti-CSRF token
/// is missing, or the week on the first page of a session.
pub fn tokens_from(
    csrf: Option<String>,
    legacy: Option<String>,
    week: Option<String>,
    first_page: bool,
) -> (r: Result<Tokens, CrawlError>)
    ensures
        match tokens_from_spec(
            csrf.deep_view(),
            legacy.deep_view(),
            week.deep_view(),
            first_page,
        ) {
            Some(t) => r matches Ok(found) && found@ == t,
            None => r == Err::<Tokens, CrawlError>(CrawlError::ProtocolShape),
        },
{
    let csrf = match csrf {
        Some(c) => c,
        None => {
            return Err(CrawlError::ProtocolShape);
        },
    };
    if first_page && week.is_none() {
        return Err(CrawlError::ProtocolShape);
    }
    Ok(Tokens { csrf, legacy, week })
}

/// The tokens that the page `html` carries.
pub open spec fn tokens_of(html: Seq<char>, first_page: bool) -> Option<TokensView> {
    tokens_from_spec(
        first_attr_of(html, CSRF_SELECTOR@, VALUE@),
        first_attr_of(html, TOKEN_SELECTOR@, VALUE@),
        first_attr_of(html, WEEK_SELECTOR@, VALUE@),
        first_page,
    )
}

/// Reads the tokens from a page of the search session. Fails when the page
/// lacks the anti-CSRF token, or, on the first page, the week selector.
pub fn extract_tokens(html: &str, first_page: bool) -> (r: Result<Tokens, CrawlError>)
    ensures
        match tokens_of(html@, first_page) {
            Some(t) => r matches Ok(found) && found@ == t,
            None => r == Err::<Tokens, CrawlError>(CrawlError::ProtocolShape),
        },
{
    let csrf = first_attr(html, CSRF_SELECTOR, VALUE);
    let legacy = first_attr(html, TOKEN_SELECTOR, VALUE);
    let week = first_attr(html, WEEK_SELECTOR, VALUE);
    tokens_from(csrf, legacy, week, first_page)
}

} // verus!
