//! What the listing and command queries compute around the database: the
//! window of rows a listing asks for, the total it reports, and whether a
//! command touched any row.
use crate::pagination::{offset, limit, row_limit, row_offset, FindAllRequest};
use crate::text::{blank, is_blank};
use vstd::prelude::*;

verus! {

/// The rows a listing query asks the database for: those matching `search`
/// (all of them when `None`), `limit` of them, after skipping `offset`.
pub struct QueryWindow {
    pub search: Option<String>,
    pub limit: i32,
    pub offset: i32,
}

/// Whether the rows skipped for `page` fit in an `i32`, the type the
/// queries compute them in.
pub open spec fn offset_fits(page: i32, page_size: i32) -> bool {
    page > i32::MIN && row_offset(page, page_size) <= i32::MAX
}

/// `w` is the window of rows for `req`.
pub open spec fn window_of(req: FindAllRequest, w: QueryWindow) -> bool {
    &&& w.limit == row_limit(req.page_size)
    &&& w.offset == row_offset(req.page, req.page_size)
    &&& (w.search is None <==> is_blank(req.search@))
    &&& (w.search matches Some(s) ==> s@ == req.search@)
}

/// The window of rows for a listing request: the page size clamped to
/// `1..=100`, the rows of the pages before skipped, and a search text made
/// of white space only dropped. `None` where the number of skipped rows
/// overflows an `i32`.
pub fn query_window(req: &FindAllRequest) -> (r: Option<QueryWindow>)
    ensures
        r is Some <==> offset_fits(req.page, req.page_size),
        r matches Some(w) ==> window_of(*req, w),
{
    let skipped = offset(req.page, req.page_size);
    if req.page == i32::MIN || skipped > i32::MAX as i64 {
        return None;
    }
    let search = if blank(req.search.as_str()) {
        None
    } else {
        Some(req.search.clone())
    };
    Some(QueryWindow { search, limit: limit(req.page_size), offset: skipped as i32 })
}

/// The total a listing reports: the count carried by its first row, or 0
/// when there is none.
pub fn listed_total(first_row_total: Option<i64>) -> (r: i64)
    ensures
        r == match first_row_total {
            Some(t) => t,
            None => 0,
        },
{
    match first_row_total {
        Some(t) => t,
        None => 0,
    }
}

/// Whether a command changed anything: at least one row was affected.
pub fn any_rows_affected(rows_affected: u64) -> (r: bool)
    ensures
        r == (rows_affected > 0),
{
    rows_affected > 0
}

} // verus!
