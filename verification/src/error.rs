//! Why a crawl, or the handling of one case, stopped.

use vstd::prelude::*;

verus! {

/// The failures the crawl distinguishes.
#[derive(Clone, Copy, Debug, PartialEq, Eq, Structural)]
pub enum CrawlError {
    /// An element the portal's pages are expected to hold is missing.
    ProtocolShape,
    /// A "next page" link led back to a page already followed.
    PaginationLoop,
    /// A request to the portal failed.
    Transport,
    /// A document could not be stored in blob storage.
    Upload,
    /// The document store refused or failed an operation.
    Store,
    /// A case's documents page names no reference id.
    MissingReference,
}

impl CrawlError {
    /// A short description for diagnostics.
    pub fn message(&self) -> (s: String)
        ensures
            s@ == match *self {
                CrawlError::ProtocolShape => "expected page element is missing"@,
                CrawlError::PaginationLoop => "next page link does not advance"@,
                CrawlError::Transport => "request to the portal failed"@,
                CrawlError::Upload => "document upload failed"@,
                CrawlError::Store => "document store operation failed"@,
                CrawlError::MissingReference => "no reference id found"@,
            },
    {
        match self {
            CrawlError::ProtocolShape => "expected page element is missing".to_owned(),
            CrawlError::PaginationLoop => "next page link does not advance".to_owned(),
            CrawlError::Transport => "request to the portal failed".to_owned(),
            CrawlError::Upload => "document upload failed".to_owned(),
            CrawlError::Store => "document store operation failed".to_owned(),
            CrawlError::MissingReference => "no reference id found".to_owned(),
        }
    }
}

} // verus!
