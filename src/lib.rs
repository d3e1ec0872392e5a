//! Scraping engine for the family of "WPComics" templated comic sites.
//!
//! The engine works on values already read out of a page (text of a node,
//! an attribute): the document fetch and the selector queries are done by
//! the host, the normalisation and decision logic lives here.
pub mod cache;
pub mod chapter;
pub mod details;
pub mod source;
pub mod text;
