//! The fixed facts of the portal: its address, the jurisdiction it serves,
//! and the CSS selectors under which its pages hold what the crawl reads.

use vstd::prelude::*;

verus! {

/// The jurisdiction tag that every record carries.
pub const COUNTY: &'static str = "Leeds";

/// The portal's origin; the links on its pages are relative to it.
pub const BASE_URL: &'static str = "https://publicaccess.leeds.gov.uk";

/// The actor recorded as creator and updater of every record.
pub const ACTOR: &'static str = "6539157ef8be4d62ea02ed6b";

/// The first option of the "week" selector on the listing page.
pub const WEEK_SELECTOR: &'static str = "select[name=\"week\"] > option:first-of-type";

/// The legacy session token field.
pub const TOKEN_SELECTOR: &'static str = "input[name=\"org.apache.struts.taglib.html.TOKEN\"]";

/// The anti-CSRF token field.
pub const CSRF_SELECTOR: &'static str = "input[name=\"_csrf\"]";

/// The links to case summaries on a results page.
pub const SUMMARY_SELECTOR: &'static str = "ul#searchresults > li.searchresult > a.summaryLink";

/// The "next page" link of a results page.
pub const PAGINATION_SELECTOR: &'static str = "a.next";

/// The rows of the documents table.
pub const DOCS_ROW_SELECTOR: &'static str = "tr";

/// The name cell of a row of the documents table.
pub const DOCS_SELECTOR: &'static str = ":scope > td:nth-child(3)";

/// The description cell of a row of the documents table.
pub const DESCRIPTION_SELECTOR: &'static str = ":scope > td:nth-child(5)";

/// The link in the link cell of a row of the documents table.
pub const DOCS_LINK_SELECTOR: &'static str = ":scope > td:nth-child(6) > a";

/// The case's reference id on its documents page.
pub const REFERENCE_ID_SELECTOR: &'static str = "div.addressCrumb > span.caseNumber";

/// The primary details table of the print preview; it may come in two parts.
pub const SIMPLE_DETAILS_TABLE_SELECTOR: &'static str = "table#simpleDetailsTable";

/// The "further information" table of the print preview.
pub const FURTHER_INFORMATION_SELECTOR: &'static str = "table#applicationDetails";

/// The agents table of the print preview.
pub const AGENTS_SELECTOR: &'static str = "table.agents";

/// The name of the form field that carries the legacy session token.
pub const TOKEN_FIELD: &'static str = "org.apache.struts.taglib.html.TOKEN";

} // verus!
