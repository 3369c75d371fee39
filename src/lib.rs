//! Crawl engine for a paginated online-novel site.
//!
//! The crate holds the decisions of a crawl: the work-item queue, the
//! extraction rules that turn a fetched page into follow-on work, and the
//! names under which artifacts are stored. Fetching and writing files are
//! left to the caller, who feeds each fetched body back to [`crawl::Crawl`].
pub mod crawl;
pub mod extract;
pub mod item;
pub mod naming;
pub mod text;
