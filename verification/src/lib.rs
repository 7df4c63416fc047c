//! Crawl logic for a municipal planning-application portal.
//!
//! The crawl walks the weekly lists of validated and of decided cases, reads
//! each case's documents page and print preview, and reconciles what it
//! finds with a document store: new cases are inserted with their uploaded
//! documents, cases whose decision has come are updated, all others are left
//! alone. The library decides; its caller talks to the portal, to blob
//! storage and to the store.
//!
//! - [`process`] is the crawl as a state machine, [`walker`] the search
//!   session within it.
//! - [`tokens`], [`documents`] and [`details`] read the portal's pages, by
//!   way of [`html`], [`text`] and [`date`].
//! - [`record`], [`store`] and [`upload`] hold what is persisted.
//! - [`reconcile`], [`validated`] and [`decided`] state what the crawl's
//!   decisions amount to, the latter two over the [`model`] of its
//!   surroundings.

pub mod date;
pub mod decided;
pub mod details;
pub mod documents;
pub mod error;
pub mod html;
pub mod model;
pub mod portal;
pub mod process;
pub mod reconcile;
pub mod record;
pub mod store;
pub mod text;
pub mod tokens;
pub mod upload;
pub mod validated;
pub mod walker;
