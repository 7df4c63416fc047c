//! The pagination walker: the search session of the portal as a state
//! machine. It is handed each page that the portal sends and answers with
//! the next request, until the result list is exhausted.

use crate::documents::HREF;
use crate::error::CrawlError;
use crate::html::{attr_values, attr_values_of, first_attr, first_attr_of, fits, is_page};
use crate::portal::{BASE_URL, PAGINATION_SELECTOR, SUMMARY_SELECTOR, TOKEN_FIELD};
use crate::text::{holds_text, joined};
use crate::tokens::{extract_tokens, tokens_of, Tokens, TokensView};
use vstd::prelude::*;

verus! {

/// The path to which the search is submitted.
pub const FIRST_PAGE_PATH: &'static str = "/online-applications/weeklyListResults.do?action=firstPage";

/// The path that serves the paged results.
pub const PAGED_PATH: &'static str = "/online-applications/pagedSearchResults.do";

/// The seconds to wait before a further page is fetched.
pub const PAGE_DELAY_SECS: u64 = 1;

/// Where the search session stands.
#[derive(Clone, Copy, Debug, PartialEq, Eq, Structural)]
pub enum Phase {
    /// The listing page was requested.
    Init,
    /// The search was submitted.
    SearchSubmitted,
    /// Result pages are being read.
    Paged,
}

/// A request to the portal.
#[derive(Clone, Debug, PartialEq, Eq)]
pub enum Request {
    /// Wait `delay_secs` seconds, then GET `url`.
    Get { url: String, delay_secs: u64 },
    /// POST the form, URL-encoded, to `url`.
    Post { url: String, form: Vec<(String, String)> },
}

/// The view of a [`Request`].
pub enum RequestView {
    Get { url: Seq<char>, delay_secs: u64 },
    Post { url: Seq<char>, form: Seq<(Seq<char>, Seq<char>)> },
}

impl View for Request {
    type V = RequestView;

    open spec fn view(&self) -> RequestView {
        match *self {
            Request::Get { url, delay_secs } => RequestView::Get { url: url@, delay_secs },
            Request::Post { url, form } => RequestView::Post {
                url: url@,
                form: form.deep_view(),
            },
        }
    }
}

/// The state of one walk through the results of one date filter.
#[derive(Clone, Debug, PartialEq, Eq)]
pub struct Walk {
    pub phase: Phase,
    /// The date filter keyword.
    pub option: String,
    /// The case links found so far, in result order.
    pub links: Vec<String>,
    /// The "next page" links followed so far.
    pub followed: Vec<String>,
}

/// The view of a [`Walk`].
pub struct WalkView {
    pub phase: Phase,
    pub option: Seq<char>,
    pub links: Seq<Seq<char>>,
    pub followed: Seq<Seq<char>>,
}

impl View for Walk {
    type V = WalkView;

    open spec fn view(&self) -> WalkView {
        WalkView {
            phase: self.phase,
            option: self.option@,
            links: self.links.deep_view(),
            followed: self.followed.deep_view(),
        }
    }
}

/// What a results page holds for the walk.
#[derive(Clone, Debug, PartialEq, Eq)]
pub struct ResultsPage {
    /// The case links of the page, in order.
    pub links: Vec<String>,
    /// The link to the next page, if the page has one.
    pub next: Option<String>,
}

/// The view of a [`ResultsPage`].
pub struct ResultsPageView {
    pub links: Seq<Seq<char>>,
    pub next: Option<Seq<char>>,
}

impl View for ResultsPage {
    type V = ResultsPageView;

    open spec fn view(&self) -> ResultsPageView {
        ResultsPageView { links: self.links.deep_view(), next: self.next.deep_view() }
    }
}

/// The walker's answer to a page.
#[derive(Clone, Debug, PartialEq, Eq)]
pub enum WalkStep {
    /// Make the request and hand its response to the walk.
    Fetch(Walk, Request),
    /// The results are exhausted: these are the case links, in result order.
    Done(Vec<String>),
    /// The walk cannot go on.
    Failed(CrawlError),
}

/// The view of a [`WalkStep`].
pub enum WalkStepView {
    Fetch(WalkView, RequestView),
    Done(Seq<Seq<char>>),
    Failed(CrawlError),
}

impl View for WalkStep {
    type V = WalkStepView;

    open spec fn view(&self) -> WalkStepView {
        match *self {
            WalkStep::Fetch(walk, request) => WalkStepView::Fetch(walk@, request@),
            WalkStep::Done(links) => WalkStepView::Done(links.deep_view()),
            WalkStep::Failed(e) => WalkStepView::Failed(e),
        }
    }
}

/// `form` with the legacy token added, where there is one.
pub open spec fn with_legacy(form: Seq<(Seq<char>, Seq<char>)>, legacy: Option<Seq<char>>) -> Seq<
    (Seq<char>, Seq<char>),
> {
    match legacy {
        Some(token) => form.push((TOKEN_FIELD@, token)),
        None => form,
    }
}

/// The form that submits the search for the week `week` under the date
/// filter `option`.
pub open spec fn search_form(tokens: TokensView, week: Seq<char>, option: Seq<char>) -> Seq<
    (Seq<char>, Seq<char>),
> {
    with_legacy(
        seq![
            ("_csrf"@, tokens.csrf),
            ("searchCriteria.parish"@, Seq::empty()),
            ("searchCriteria.ward"@, Seq::empty()),
            ("week"@, week),
            ("dateType"@, option),
            ("searchType"@, "Application"@),
        ],
        tokens.legacy,
    )
}

/// The form that asks for the first page of the results, the latest received
/// first, a hundred to the page.
pub open spec fn paging_form(tokens: TokensView) -> Seq<(Seq<char>, Seq<char>)> {
    with_legacy(
        seq![
            ("_csrf"@, tokens.csrf),
            ("searchCriteria.page"@, "1"@),
            ("action"@, "page"@),
            ("orderBy"@, "DateReceived"@),
            ("orderByDirection"@, "Descending"@),
            ("searchCriteria.resultsPerPage"@, "100"@),
        ],
        tokens.legacy,
    )
}

/// Adds a field to a form.
fn put(form: &mut Vec<(String, String)>, name: &str, value: String)
    ensures
        final(form).deep_view() == old(form).deep_view().push((name@, value@)),
{
    let ghost before = form.deep_view();
    form.push((name.to_owned(), value));
    assert(form.deep_view() =~= before.push((name@, value@)));
}

/// Adds the legacy token to a form, where there is one.
fn put_legacy(form: &mut Vec<(String, String)>, legacy: Option<String>)
    ensures
        final(form).deep_view() == with_legacy(old(form).deep_view(), legacy.deep_view()),
{
    match legacy {
        Some(token) => {
            put(form, TOKEN_FIELD, token);
        },
        None => {},
    }
}

/// Builds the form that submits the search.
pub fn build_search_form(tokens: Tokens, week: String, option: &str) -> (form: Vec<(String, String)>)
    ensures
        form.deep_view() == search_form(tokens@, week@, option@),
{
    let mut form: Vec<(String, String)> = Vec::new();
    assert(form.deep_view() =~= Seq::<(Seq<char>, Seq<char>)>::empty());
    put(&mut form, "_csrf", tokens.csrf);
    put(&mut form, "searchCriteria.parish", String::new());
    put(&mut form, "searchCriteria.ward", String::new());
    put(&mut form, "week", week);
    put(&mut form, "dateType", option.to_owned());
    put(&mut form, "searchType", "Application".to_owned());
    assert(form.deep_view() =~= seq![
        ("_csrf"@, tokens.csrf@),
        ("searchCriteria.parish"@, Seq::empty()),
        ("searchCriteria.ward"@, Seq::empty()),
        ("week"@, week@),
        ("dateType"@, option@),
        ("searchType"@, "Application"@),
    ]);
    put_legacy(&mut form, tokens.legacy);
    form
}

/// Builds the form that asks for the first page of the results.
pub fn build_paging_form(tokens: Tokens) -> (form: Vec<(String, String)>)
    ensures
        form.deep_view() == paging_form(tokens@),
{
    let mut form: Vec<(String, String)> = Vec::new();
    assert(form.deep_view() =~= Seq::<(Seq<char>, Seq<char>)>::empty());
    put(&mut form, "_csrf", tokens.csrf);
    put(&mut form, "searchCriteria.page", "1".to_owned());
    put(&mut form, "action", "page".to_owned());
    put(&mut form, "orderBy", "DateReceived".to_owned());
    put(&mut form, "orderByDirection", "Descending".to_owned());
    put(&mut form, "searchCriteria.resultsPerPage", "100".to_owned());
    assert(form.deep_view() =~= seq![
        ("_csrf"@, tokens.csrf@),
        ("searchCriteria.page"@, "1"@),
        ("action"@, "page"@),
        ("orderBy"@, "DateReceived"@),
        ("orderByDirection"@, "Descending"@),
        ("searchCriteria.resultsPerPage"@, "100"@),
    ]);
    put_legacy(&mut form, tokens.legacy);
    form
}

/// The walk over the results of the date filter `option`, and its first
/// request: the listing page at `url`.
pub open spec fn begin_spec(url: Seq<char>, option: Seq<char>) -> (WalkView, RequestView) {
    (
        WalkView {
            phase: Phase::Init,
            option,
            links: Seq::empty(),
            followed: Seq::empty(),
        },
        RequestView::Get { url, delay_secs: 0 },
    )
}

/// Starts a walk over the results of the date filter `option`; the listing
/// page is at `url`.
pub fn begin(url: &str, option: &str) -> (r: (Walk, Request))
    ensures
        (r.0@, r.1@) == begin_spec(url@, option@),
{
    let links: Vec<String> = Vec::new();
    let followed: Vec<String> = Vec::new();
    assert(links.deep_view() =~= Seq::<Seq<char>>::empty());
    assert(followed.deep_view() =~= Seq::<Seq<char>>::empty());
    (
        Walk { phase: Phase::Init, option: option.to_owned(), links, followed },
        Request::Get { url: url.to_owned(), delay_secs: 0 },
    )
}

/// What the walk answers to a results page: the page's links join those
/// found before; without a "next" link the walk is done; a "next" link that
/// was followed before ends the walk as a loop; any other is followed, after
/// the delay.
pub open spec fn advance_spec(walk: WalkView, page: ResultsPageView) -> WalkStepView {
    let links = walk.links + page.links;
    match page.next {
        None => WalkStepView::Done(links),
        Some(next) => if walk.followed.contains(next) {
            WalkStepView::Failed(CrawlError::PaginationLoop)
        } else {
            WalkStepView::Fetch(
                WalkView {
                    phase: walk.phase,
                    option: walk.option,
                    links,
                    followed: walk.followed.push(next),
                },
                RequestView::Get { url: BASE_URL@ + next, delay_secs: PAGE_DELAY_SECS },
            )
        },
    }
}

/// Takes a results page into the walk.
pub fn advance(walk: Walk, page: ResultsPage) -> (step: WalkStep)
    ensures
        step@ == advance_spec(walk@, page@),
{
    let Walk { phase, option, mut links, mut followed } = walk;
    let ResultsPage { links: mut found, next } = page;
    let ghost before = links.deep_view();
    let ghost added = found.deep_view();
    links.append(&mut found);
    assert(links.deep_view() =~= before + added);
    match next {
        None => WalkStep::Done(links),
        Some(next) => {
            if holds_text(&followed, next.as_str()) {
                WalkStep::Failed(CrawlError::PaginationLoop)
            } else {
                let url = joined(BASE_URL, next.as_str());
                let ghost earlier = followed.deep_view();
                followed.push(next);
                assert(followed.deep_view() =~= earlier.push(next@));
                WalkStep::Fetch(
                    Walk { phase, option, links, followed },
                    Request::Get { url, delay_secs: PAGE_DELAY_SECS },
                )
            }
        },
    }
}

/// What a results page holds for the walk: the targets of its case links,
/// and the target of its first "next" link.
pub open spec fn results_of(html: Seq<char>) -> ResultsPageView {
    ResultsPageView {
        links: attr_values_of(html, SUMMARY_SELECTOR@, HREF@),
        next: first_attr_of(html, PAGINATION_SELECTOR@, HREF@),
    }
}

/// Reads a results page.
pub fn read_results(html: &str) -> (page: ResultsPage)
    ensures
        page@ == results_of(html@),
{
    ResultsPage {
        links: attr_values(html, SUMMARY_SELECTOR, HREF),
        next: first_attr(html, PAGINATION_SELECTOR, HREF),
    }
}

/// What the walk answers to the page `html`. The listing page must carry the
/// week and the anti-CSRF token, and is answered with the search form; the
/// answer to that must carry a fresh anti-CSRF token, and is answered with
/// the request for the first page of results; each results page is taken in
/// as [`advance_spec`] says. A page too long to be parsed ends the walk in
/// every phase.
pub open spec fn step_spec(walk: WalkView, html: Seq<char>) -> WalkStepView {
    match walk.phase {
        Phase::Init => match tokens_of(html, true) {
            None => WalkStepView::Failed(CrawlError::ProtocolShape),
            Some(tokens) => WalkStepView::Fetch(
                WalkView {
                    phase: Phase::SearchSubmitted,
                    option: walk.option,
                    links: walk.links,
                    followed: walk.followed,
                },
                RequestView::Post {
                    url: BASE_URL@ + FIRST_PAGE_PATH@,
                    form: search_form(tokens, tokens.week->0, walk.option),
                },
            ),
        },
        Phase::SearchSubmitted => match tokens_of(html, false) {
            None => WalkStepView::Failed(CrawlError::ProtocolShape),
            Some(tokens) => WalkStepView::Fetch(
                WalkView {
                    phase: Phase::Paged,
                    option: walk.option,
                    links: walk.links,
                    followed: walk.followed,
                },
                RequestView::Post { url: BASE_URL@ + PAGED_PATH@, form: paging_form(tokens) },
            ),
        },
        Phase::Paged => if is_page(html) {
            advance_spec(walk, results_of(html))
        } else {
            WalkStepView::Failed(CrawlError::ProtocolShape)
        },
    }
}

/// Hands the walk the page that answered its last request, and returns what
/// it wants next: a further request, or, when the results are exhausted, the
/// case links of all pages in result order.
pub fn extract_links(walk: Walk, html: &str) -> (step: WalkStep)
    ensures
        step@ == step_spec(walk@, html@),
{
    match walk.phase {
        Phase::Init => {
            let mut tokens = match extract_tokens(html, true) {
                Ok(tokens) => tokens,
                Err(_) => {
                    return WalkStep::Failed(CrawlError::ProtocolShape);
                },
            };
            let ghost found = tokens@;
            let week = match tokens.week.take() {
                Some(week) => week,
                None => {
                    return WalkStep::Failed(CrawlError::ProtocolShape);
                },
            };
            let form = build_search_form(tokens, week, walk.option.as_str());
            assert(form.deep_view() == search_form(found, found.week->0, walk@.option));
            let Walk { phase: _, option, links, followed } = walk;
            WalkStep::Fetch(
                Walk { phase: Phase::SearchSubmitted, option, links, followed },
                Request::Post { url: joined(BASE_URL, FIRST_PAGE_PATH), form },
            )
        },
        Phase::SearchSubmitted => {
            let tokens = match extract_tokens(html, false) {
                Ok(tokens) => tokens,
                Err(_) => {
                    return WalkStep::Failed(CrawlError::ProtocolShape);
                },
            };
            let form = build_paging_form(tokens);
            let Walk { phase: _, option, links, followed } = walk;
            WalkStep::Fetch(
                Walk { phase: Phase::Paged, option, links, followed },
                Request::Post { url: joined(BASE_URL, PAGED_PATH), form },
            )
        },
        Phase::Paged => {
            if fits(html) {
                advance(walk, read_results(html))
            } else {
                WalkStep::Failed(CrawlError::ProtocolShape)
            }
        },
    }
}

/// Whether the pages form a chain: each but the last links to a next page
/// under a link that was not followed before, and the last has no "next"
/// link.
pub open spec fn is_chain(pages: Seq<ResultsPageView>, followed: Seq<Seq<char>>) -> bool
    decreases pages.len(),
{
    if pages.len() == 0 {
        false
    } else if pages.len() == 1 {
        pages[0].next is None
    } else {
        &&& pages[0].next is Some
        &&& !followed.contains(pages[0].next->0)
        &&& is_chain(pages.drop_first(), followed.push(pages[0].next->0))
    }
}

/// The case links of the pages, page after page.
pub open spec fn all_links(pages: Seq<ResultsPageView>) -> Seq<Seq<char>>
    decreases pages.len(),
{
    if pages.len() == 0 {
        Seq::empty()
    } else {
        pages[0].links + all_links(pages.drop_first())
    }
}

/// What the walk answers after it was handed the pages one after the other,
/// as long as it asked for more.
pub open spec fn feed(walk: WalkView, pages: Seq<ResultsPageView>) -> WalkStepView
    decreases pages.len(),
{
    let step = advance_spec(walk, pages[0]);
    if pages.len() <= 1 {
        step
    } else {
        match step {
            WalkStepView::Fetch(next, _) => feed(next, pages.drop_first()),
            _ => step,
        }
    }
}

/// A walk that is handed a chain of result pages ends with the last page,
/// and yields the links found before followed by the links of every page,
/// in page order. For a single page without a "next" link these are the
/// links of that page. Where no link occurs twice among them, none occurs
/// twice in what the walk yields.
pub proof fn chain_yields_links_in_page_order(walk: WalkView, pages: Seq<ResultsPageView>)
    requires
        is_chain(pages, walk.followed),
    ensures
        feed(walk, pages) == WalkStepView::Done(walk.links + all_links(pages)),
        pages.len() == 1 && walk.links.len() == 0 ==> feed(walk, pages) == WalkStepView::Done(
            pages[0].links,
        ),
        (walk.links + all_links(pages)).no_duplicates() ==> (feed(walk, pages) matches WalkStepView::Done(
            links,
        ) && links.no_duplicates()),
    decreases pages.len(),
{
    let rest = pages.drop_first();
    if pages.len() == 1 {
        assert(all_links(rest) == Seq::<Seq<char>>::empty());
        assert(pages[0].links + Seq::<Seq<char>>::empty() == pages[0].links);
        assert(Seq::<Seq<char>>::empty() + pages[0].links == pages[0].links);
    } else {
        let step = advance_spec(walk, pages[0]);
        let next = step->Fetch_0;
        chain_yields_links_in_page_order(next, rest);
        assert((walk.links + pages[0].links) + all_links(rest) == walk.links + (pages[0].links
            + all_links(rest)));
    }
}

/// A "next" link that the walk has followed before ends the walk: the
/// cursor does not advance.
pub proof fn repeated_next_link_is_a_loop(walk: WalkView, page: ResultsPageView)
    requires
        page.next is Some,
        walk.followed.contains(page.next->0),
    ensures
        advance_spec(walk, page) == WalkStepView::Failed(CrawlError::PaginationLoop),
{
}

} // verus!
