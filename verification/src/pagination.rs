//! Paging: what a listing request asks for, how services normalise it, how
//! repositories turn it into a window of rows, and how many pages there are.
use crate::text::{blank, is_blank};
use vstd::prelude::*;

verus! {

/// A request for one page of a listing, optionally filtered by a search text.
pub struct FindAllRequest {
    pub page: i32,
    pub page_size: i32,
    pub search: String,
}

/// The page a service actually serves.
pub struct PageParams {
    pub page: i32,
    pub page_size: i32,
    pub search: Option<String>,
}

/// Page used when the request asks for none (or a non-positive one).
pub const DEFAULT_PAGE: i32 = 1;

/// Page size used when the request asks for none (or a non-positive one).
pub const DEFAULT_PAGE_SIZE: i32 = 10;

/// Largest page size a repository serves.
pub const MAX_PAGE_SIZE: i32 = 100;

/// The page a service serves for a requested page number.
pub open spec fn normal_page(page: i32) -> i32 {
    if page > 0 {
        page
    } else {
        DEFAULT_PAGE
    }
}

/// The page size a service serves for a requested page size.
pub open spec fn normal_page_size(page_size: i32) -> i32 {
    if page_size > 0 {
        page_size
    } else {
        DEFAULT_PAGE_SIZE
    }
}

/// Whether a search text counts as absent: empty, or (when `trim` is set)
/// made of white space only.
pub open spec fn search_absent(search: Seq<char>, trim: bool) -> bool {
    if trim {
        is_blank(search)
    } else {
        search.len() == 0
    }
}

/// `p` is the page served for `req`.
pub open spec fn normalized(req: FindAllRequest, trim: bool, p: PageParams) -> bool {
    &&& p.page == normal_page(req.page)
    &&& p.page_size == normal_page_size(req.page_size)
    &&& (search_absent(req.search@, trim) <==> p.search is None)
    &&& (p.search matches Some(s) ==> s@ == req.search@)
}

/// The page a service serves for `req`: non-positive page numbers and sizes
/// fall back to the defaults, and an absent search text becomes `None`
/// (`trim` decides whether white space alone counts as absent).
pub fn normalize(req: &FindAllRequest, trim: bool) -> (p: PageParams)
    ensures
        normalized(*req, trim, p),
        req.page > 0 ==> p.page == req.page,
        req.page <= 0 ==> p.page == DEFAULT_PAGE,
        req.page_size > 0 ==> p.page_size == req.page_size,
        req.page_size <= 0 ==> p.page_size == DEFAULT_PAGE_SIZE,
{
    let page = if req.page > 0 {
        req.page
    } else {
        DEFAULT_PAGE
    };
    let page_size = if req.page_size > 0 {
        req.page_size
    } else {
        DEFAULT_PAGE_SIZE
    };
    let absent = if trim {
        blank(req.search.as_str())
    } else {
        req.search.as_str().unicode_len() == 0
    };
    let search = if absent {
        None
    } else {
        Some(req.search.clone())
    };
    PageParams { page, page_size, search }
}

/// The search text as it appears in logs and some cache keys: the word
/// `None` when absent.
pub open spec fn search_label(search: Option<String>) -> Seq<char> {
    match search {
        Some(s) => s@,
        None => "None"@,
    }
}

/// The search text as it appears in other cache keys: empty when absent.
pub open spec fn search_or_empty(search: Option<String>) -> Seq<char> {
    match search {
        Some(s) => s@,
        None => Seq::empty(),
    }
}

/// The search text of `req` as some cache keys show it: empty when absent.
pub open spec fn req_search_or_empty(req: FindAllRequest, trim: bool) -> Seq<char> {
    if search_absent(req.search@, trim) {
        Seq::empty()
    } else {
        req.search@
    }
}

/// The search text of `req` as other cache keys show it: `None` when absent.
pub open spec fn req_search_label(req: FindAllRequest, trim: bool) -> Seq<char> {
    if search_absent(req.search@, trim) {
        "None"@
    } else {
        req.search@
    }
}

impl PageParams {
    /// The search text, or `None` when absent.
    pub fn search_label(&self) -> (r: String)
        ensures
            r@ == search_label(self.search),
    {
        match &self.search {
            Some(s) => s.clone(),
            None => String::from_str("None"),
        }
    }

    /// The search text, or the empty text when absent.
    pub fn search_or_empty(&self) -> (r: String)
        ensures
            r@ == search_or_empty(self.search),
    {
        match &self.search {
            Some(s) => s.clone(),
            None => String::new(),
        }
    }
}

/// The number of pages needed for `total` items, `page_size` per page: the
/// quotient rounded up, saturated to the range of `i32`.
pub open spec fn pages_for(total: int, page_size: int) -> int {
    let q = (total + page_size - 1) / page_size;
    if q > i32::MAX {
        i32::MAX as int
    } else if q < i32::MIN {
        i32::MIN as int
    } else {
        q
    }
}

/// The number of pages needed for `total_items` items, `page_size` per page.
pub fn total_pages(total_items: i64, page_size: i32) -> (r: i32)
    requires
        page_size > 0,
    ensures
        r == pages_for(total_items as int, page_size as int),
        total_items >= 0 ==> 0 <= r && (r - 1) * page_size < total_items && (r * page_size
            >= total_items || r == i32::MAX),
{
    proof {
        if total_items >= 0 {
            law_pages_is_ceiling(total_items as int, page_size as int);
        }
    }
    let t: i128 = total_items as i128;
    let s: i128 = page_size as i128;
    let n: i128 = t + s - 1;
    let q: i128 = if n >= 0 {
        n / s
    } else {
        -((-n + s - 1) / s)
    };
    proof {
        let ni = n as int;
        let si = s as int;
        if n < 0 {
            let m = (-ni + si - 1) / si;
            assert(m * si <= -ni + si - 1 < m * si + si) by (nonlinear_arith)
                requires
                    m == (-ni + si - 1) / si,
                    si > 0,
            ;
            assert(ni / si == -m) by (nonlinear_arith)
                requires
                    m * si <= -ni + si - 1 < m * si + si,
                    si > 0,
                    ni < 0,
            ;
        }
    }
    if q > i32::MAX as i128 {
        i32::MAX
    } else if q < i32::MIN as i128 {
        i32::MIN
    } else {
        q as i32
    }
}

/// The number of rows a repository returns for a requested page size: the
/// size clamped to `1..=100`.
pub open spec fn row_limit(page_size: i32) -> i32 {
    if page_size < 1 {
        1
    } else if page_size > MAX_PAGE_SIZE {
        MAX_PAGE_SIZE
    } else {
        page_size
    }
}

/// The number of rows a repository skips for a requested page: the rows of
/// all pages before it (none before page one).
pub open spec fn row_offset(page: i32, page_size: i32) -> int {
    let before = if page - 1 > 0 {
        page - 1
    } else {
        0
    };
    before * row_limit(page_size)
}

/// The number of rows a repository returns for a requested page size.
pub fn limit(page_size: i32) -> (r: i32)
    ensures
        r == row_limit(page_size),
        1 <= r <= MAX_PAGE_SIZE,
{
    if page_size < 1 {
        1
    } else if page_size > MAX_PAGE_SIZE {
        MAX_PAGE_SIZE
    } else {
        page_size
    }
}

/// The number of rows a repository skips for a requested page.
pub fn offset(page: i32, page_size: i32) -> (r: i64)
    ensures
        r == row_offset(page, page_size),
        r >= 0,
{
    let before: i64 = if page as i64 - 1 > 0 {
        page as i64 - 1
    } else {
        0
    };
    let l = limit(page_size) as i64;
    assert(0 <= before * l <= 0x7fff_ffff * 100) by (nonlinear_arith)
        requires
            0 <= before <= 0x7fff_ffff,
            1 <= l <= 100,
    ;
    before * l
}

/// Consecutive pages never overlap: page `p + 1` starts where page `p` ends.
pub proof fn law_pages_adjacent(page: i32, page_size: i32)
    requires
        page >= 1,
        page < i32::MAX,
    ensures
        row_offset((page + 1) as i32, page_size) == row_offset(page, page_size) + row_limit(
            page_size,
        ),
{
    assert((page as int) * row_limit(page_size) == (page as int - 1) * row_limit(page_size)
        + row_limit(page_size)) by (nonlinear_arith);
}

/// Enough pages are counted for all items and no page is left empty: for a
/// non-negative total, `pages * size` covers the total and one page fewer
/// would not.
pub proof fn law_pages_cover_total(total: int, page_size: int)
    requires
        0 <= total,
        page_size > 0,
    ensures
        ({
            let q = (total + page_size - 1) / page_size;
            q * page_size >= total && (q - 1) * page_size < total || total == 0 && q == 0
        }),
{
    let q = (total + page_size - 1) / page_size;
    assert(q * page_size <= total + page_size - 1 < q * page_size + page_size) by (
    nonlinear_arith)
        requires
            q == (total + page_size - 1) / page_size,
            page_size > 0,
    ;
    if total == 0 {
        assert(q == 0) by (nonlinear_arith)
            requires
                q * page_size <= page_size - 1 < q * page_size + page_size,
                page_size > 0,
        ;
    }
    assert((q - 1) * page_size == q * page_size - page_size) by (nonlinear_arith);
}

/// A positive requested page number and page size are served as asked; a
/// non-positive one is replaced by the default (page 1, ten per page).
pub proof fn law_requested_page_served(page: i32, page_size: i32)
    ensures
        page > 0 ==> normal_page(page) == page,
        page <= 0 ==> normal_page(page) == DEFAULT_PAGE,
        page_size > 0 ==> normal_page_size(page_size) == page_size,
        page_size <= 0 ==> normal_page_size(page_size) == DEFAULT_PAGE_SIZE,
        normal_page_size(page_size) > 0,
{
}

/// The number of pages is the smallest count of pages of `page_size` items
/// that holds `total` items, capped at `i32::MAX`: one page fewer holds
/// fewer than `total`, and the count holds them all unless it was capped.
pub proof fn law_pages_is_ceiling(total: int, page_size: int)
    requires
        0 <= total,
        page_size > 0,
    ensures
        0 <= pages_for(total, page_size) <= i32::MAX,
        (pages_for(total, page_size) - 1) * page_size < total,
        pages_for(total, page_size) * page_size >= total || pages_for(total, page_size)
            == i32::MAX,
{
    let q = (total + page_size - 1) / page_size;
    let p = pages_for(total, page_size);
    assert(q * page_size <= total + page_size - 1 < q * page_size + page_size) by (
    nonlinear_arith)
        requires
            q == (total + page_size - 1) / page_size,
            page_size > 0,
    ;
    assert(q >= 0) by (nonlinear_arith)
        requires
            q == (total + page_size - 1) / page_size,
            page_size > 0,
            total >= 0,
    ;
    assert(p <= q);
    assert((p - 1) * page_size <= (q - 1) * page_size) by (nonlinear_arith)
        requires
            p <= q,
            page_size > 0,
    ;
    assert((q - 1) * page_size == q * page_size - page_size) by (nonlinear_arith);
    assert(p * page_size == q * page_size || p == i32::MAX);
}

} // verus!
