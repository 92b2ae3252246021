use vstd::prelude::*;

verus! {

/// How many quotes a page of the quote list holds.
pub const PAGE_SIZE: i64 = 3;

/// What to fetch for one page of the quote list.
#[derive(Clone, Copy, PartialEq, Eq, Structural, Debug)]
pub struct PagePlan {
    /// How many pages the list has; the last one may hold fewer quotes.
    pub pages: i64,
    /// The page that the next token leads to, where there is a page after this one.
    pub next_page: Option<i64>,
    /// How many quotes, oldest first, come before this page.
    pub offset: i64,
}

/// Plans page `page` (counted from 1) of a list of `count` quotes.
pub fn plan_page(count: i64, page: i64) -> (r: PagePlan)
    requires
        0 <= count,
        1 <= page <= i64::MAX / PAGE_SIZE,
    ensures
        r.pages == count / PAGE_SIZE + if count % PAGE_SIZE > 0 {
            1int
        } else {
            0int
        },
        r.next_page == if r.pages > page {
            Some((page + 1) as i64)
        } else {
            None
        },
        r.offset == (page - 1) * PAGE_SIZE,
{
    let mut pages = count / PAGE_SIZE;
    if count % PAGE_SIZE > 0 {
        pages += 1;
    }
    let next_page = if pages > page {
        Some(page + 1)
    } else {
        None
    };
    PagePlan { pages, next_page, offset: (page - 1) * PAGE_SIZE }
}

} // verus!
