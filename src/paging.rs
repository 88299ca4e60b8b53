//! The configured pagination: page count, page lookup and a cursor that
//! walks all pages in order.
use crate::bounds::{
    begin_of, count_of, end_of, lemma_page_count_div_mod, lemma_valid_index,
    page_count_of,
};
use crate::page::{OutOfBound, Page};
use vstd::prelude::*;

verus! {

/// Pages over `length` items with at most `per_page` items each, and an
/// optional function that renders a page from its first index and its item
/// count. The value is also a cursor: `page_number` is the page that
/// [`Pages::next`] yields next.
#[derive(Clone, Copy, Debug)]
pub struct Pages<F> {
    page_number: usize,
    length: usize,
    per_page: usize,
    html_function: Option<F>,
}

impl<F: Fn(usize, usize) -> String + Copy> Pages<F> {
    /// The page the cursor stands on.
    pub closed spec fn spec_offset(&self) -> nat {
        self.page_number as nat
    }

    /// The total number of items.
    pub closed spec fn spec_length(&self) -> nat {
        self.length as nat
    }

    /// The most items a page holds.
    pub closed spec fn spec_per_page(&self) -> nat {
        self.per_page as nat
    }

    /// The render function, if one was given.
    pub closed spec fn spec_render(&self) -> Option<F> {
        self.html_function
    }

    /// The number of pages.
    pub open spec fn spec_page_count(&self) -> nat {
        page_count_of(self.spec_length(), self.spec_per_page())
    }

    /// The render function, if any, may be called on any arguments.
    pub open spec fn render_is_total(&self) -> bool {
        match self.spec_render() {
            Some(f) => forall|begin: usize, count: usize| f.requires((begin, count)),
            None => true,
        }
    }

    /// The render function, if any, gives equal text for equal arguments.
    pub open spec fn render_is_deterministic(&self) -> bool {
        match self.spec_render() {
            Some(f) => forall|args: (usize, usize), a: String, b: String|
                #![trigger f.ensures(args, a), f.ensures(args, b)]
                f.ensures(args, a) && f.ensures(args, b) ==> a@ == b@,
            None => true,
        }
    }

    /// `html` is a text that rendering `count` items from `begin` may give;
    /// without a render function it is empty.
    pub open spec fn renders(&self, begin: usize, count: usize, html: String) -> bool {
        match self.spec_render() {
            Some(f) => f.ensures((begin, count), html),
            None => html@ == Seq::<char>::empty(),
        }
    }

    /// `p` is page `index` of these pages.
    pub open spec fn is_page(&self, index: nat, p: Page) -> bool {
        let (length, capacity) = (self.spec_length(), self.spec_per_page());
        &&& p.page_number == index
        &&& p.length == count_of(length, capacity, index)
        &&& p.begin == begin_of(length, capacity, index)
        &&& p.end == end_of(length, capacity, index)
        &&& self.renders(p.begin, p.length, p.html)
    }

    /// `r` is what looking up page `index` gives: the page when it exists,
    /// else `OutOfBound`.
    pub open spec fn is_lookup(&self, index: nat, r: Result<Page, OutOfBound>) -> bool {
        match r {
            Ok(p) => index < self.spec_page_count() && self.is_page(index, p),
            Err(_) => index >= self.spec_page_count(),
        }
    }

    /// `after` and `r` are the cursor and the result of one step from
    /// `self`: the page under the cursor and a move to the next page, or
    /// `None` and no move once the pages are used up. The sizes and the
    /// render function stay as they are.
    pub open spec fn is_advance(&self, after: Pages<F>, r: Option<Page>) -> bool {
        &&& after.spec_length() == self.spec_length()
        &&& after.spec_per_page() == self.spec_per_page()
        &&& after.spec_render() == self.spec_render()
        &&& match r {
            Some(p) => {
                &&& self.spec_offset() < self.spec_page_count()
                &&& self.is_page(self.spec_offset(), p)
                &&& after.spec_offset() == self.spec_offset() + 1
            },
            None => {
                &&& self.spec_offset() >= self.spec_page_count()
                &&& after.spec_offset() == self.spec_offset()
            },
        }
    }

    /// Pages over `length` items, `per_page` to a page, rendered by `f` if
    /// given. Any sizes are accepted; the cursor starts at the first page.
    pub fn new(length: usize, per_page: usize, f: Option<F>) -> (r: Pages<F>)
        ensures
            r.spec_offset() == 0,
            r.spec_length() == length,
            r.spec_per_page() == per_page,
            r.spec_render() == f,
    {
        Pages { page_number: 0, length, per_page, html_function: f }
    }

    /// Renders `count` items from `begin`, or gives an empty text when there
    /// is no render function.
    fn render(&self, begin: usize, count: usize) -> (html: String)
        requires
            self.render_is_total(),
        ensures
            self.renders(begin, count, html),
    {
        match self.html_function {
            Some(f) => f(begin, count),
            None => String::new(),
        }
    }

    /// Page `page_number`, or `OutOfBound` when there are not that many
    /// pages. The render function is called once on success.
    pub fn to_page_number(&self, page_number: usize) -> (r: Result<Page, OutOfBound>)
        requires
            self.render_is_total(),
        ensures
            self.is_lookup(page_number as nat, r),
    {
        if page_number >= self.page_count() {
            return Err(OutOfBound);
        }
        proof {
            lemma_valid_index(self.length as nat, self.per_page as nat, page_number as nat);
        }
        let first: usize = page_number * self.per_page;
        let raw_end: usize = if self.length - first <= self.per_page {
            self.length
        } else {
            first + self.per_page
        };
        let count: usize = raw_end - first;
        let (begin, end): (usize, usize) = if count == 0 {
            (0, 0)
        } else {
            (first, raw_end - 1)
        };
        let html = self.render(begin, count);
        Ok(Page { page_number, length: count, begin, end, html })
    }

    /// The page the cursor stands on.
    pub fn offset(&self) -> (r: usize)
        ensures
            r == self.spec_offset(),
    {
        self.page_number
    }

    /// The total number of items.
    pub fn length(&self) -> (r: usize)
        ensures
            r == self.spec_length(),
    {
        self.length
    }

    /// The most items a page holds.
    pub fn per_page(&self) -> (r: usize)
        ensures
            r == self.spec_per_page(),
    {
        self.per_page
    }

    /// The number of pages: `ceil(length / per_page)`, and zero when
    /// `per_page` is zero.
    pub fn page_count(&self) -> (r: usize)
        ensures
            r == self.spec_page_count(),
    {
        if self.per_page == 0 {
            return 0;
        }
        proof {
            lemma_page_count_div_mod(self.length as nat, self.per_page as nat);
        }
        let whole: usize = self.length / self.per_page;
        if self.length % self.per_page == 0 {
            whole
        } else {
            whole + 1
        }
    }

    /// The page under the cursor, after which the cursor moves to the next
    /// page; `None` once every page has been given, the cursor then staying
    /// where it is. The sizes and the render function do not change.
    pub fn next(&mut self) -> (r: Option<Page>)
        requires
            old(self).render_is_total(),
        ensures
            old(self).is_advance(*final(self), r),
    {
        match self.to_page_number(self.page_number) {
            Ok(page) => {
                proof {
                    lemma_valid_index(self.length as nat, self.per_page as nat, self.page_number as nat);
                }
                self.page_number = self.page_number + 1;
                Some(page)
            },
            Err(_) => None,
        }
    }

    /// A fresh cursor over the same pages, standing on the first page.
    pub fn into_iter(&self) -> (r: Pages<F>)
        ensures
            r.spec_offset() == 0,
            r.spec_length() == self.spec_length(),
            r.spec_per_page() == self.spec_per_page(),
            r.spec_render() == self.spec_render(),
    {
        Pages {
            page_number: 0,
            length: self.length(),
            per_page: self.per_page(),
            html_function: self.html_function,
        }
    }
}

/// With a zero page size there are no pages, and every lookup gives
/// `OutOfBound`.
pub proof fn lemma_zero_capacity<F: Fn(usize, usize) -> String + Copy>(pages: Pages<F>)
    requires
        pages.spec_per_page() == 0,
    ensures
        pages.spec_page_count() == 0,
        forall|index: nat, r: Result<Page, OutOfBound>| #[trigger]
            pages.is_lookup(index, r) ==> r is Err,
{
}

/// With no items there are no pages, and walking them gives nothing.
pub proof fn lemma_zero_length<F: Fn(usize, usize) -> String + Copy>(
    pages: Pages<F>,
    after: Pages<F>,
    r: Option<Page>,
)
    requires
        pages.spec_length() == 0,
        pages.is_advance(after, r),
    ensures
        pages.spec_page_count() == 0,
        r is None,
{
    if pages.spec_per_page() > 0 {
        lemma_page_count_div_mod(0, pages.spec_per_page());
    }
}

/// Looking up the same page twice gives the same outcome, and equal pages,
/// when the render function gives equal text for equal arguments.
pub proof fn lemma_lookup_repeatable<F: Fn(usize, usize) -> String + Copy>(
    pages: Pages<F>,
    index: nat,
    first: Result<Page, OutOfBound>,
    second: Result<Page, OutOfBound>,
)
    requires
        pages.render_is_deterministic(),
        pages.is_lookup(index, first),
        pages.is_lookup(index, second),
    ensures
        first is Ok <==> second is Ok,
        first is Ok ==> {
            let (a, b) = (first->Ok_0, second->Ok_0);
            &&& a.page_number == b.page_number
            &&& a.length == b.length
            &&& a.begin == b.begin
            &&& a.end == b.end
            &&& a.html@ == b.html@
        },
{
    if let (Ok(a), Ok(b)) = (first, second) {
        if let Some(f) = pages.spec_render() {
            assert(f.ensures((a.begin, a.length), a.html));
            assert(f.ensures((b.begin, b.length), b.html));
        }
    }
}

} // verus!
