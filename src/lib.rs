//! Pagination boundaries over a collection of known size.
//!
//! A [`Pages`] value holds a total item count, a page capacity and an
//! optional render function; it answers how many pages there are and which
//! inclusive index range each page covers, and walks all pages in order.
pub mod bounds;
pub mod page;
pub mod paging;

pub use page::{OutOfBound, Page};
pub use paging::Pages;
