//! A single page: an inclusive index range with its rendered text, and the
//! error for a page that does not exist.
use vstd::prelude::*;

verus! {

/// The page that was asked for lies past the last page.
#[derive(Debug, Clone, Copy, PartialEq, Eq)]
pub struct OutOfBound;

impl OutOfBound {
    /// A short description of the error.
    pub fn to_string(&self) -> (r: String)
        ensures
            r@ == "out of bound"@,
    {
        "out of bound".to_owned()
    }
}

/// One page of items. `begin` and `end` are inclusive; an empty page has
/// both at zero. `html` holds what the render function made of the page.
#[derive(Clone, Debug, PartialEq, Eq)]
pub struct Page {
    pub page_number: usize,
    pub length: usize,
    pub begin: usize,
    pub end: usize,
    pub html: String,
}

impl Default for Page {
    /// The empty first page, with no text.
    fn default() -> (r: Page)
        ensures
            r.page_number == 0,
            r.length == 0,
            r.begin == 0,
            r.end == 0,
            r.html@ == Seq::<char>::empty(),
    {
        Page { page_number: 0, length: 0, begin: 0, end: 0, html: String::new() }
    }
}

impl Page {
    /// A page is empty when it holds no items.
    pub fn is_empty(&self) -> (r: bool)
        ensures
            r == (self.length == 0),
    {
        self.length == 0
    }
}

} // verus!
