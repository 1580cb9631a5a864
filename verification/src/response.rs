//! The envelopes in which services answer.
use vstd::prelude::*;

verus! {

/// A successful answer: a status word, a message and the data.
#[derive(Clone, Debug)]
pub struct ApiResponse<T> {
    pub status: String,
    pub message: String,
    pub data: T,
}

/// Where a page of results stands in the whole result set.
#[derive(Clone, Copy, Debug)]
pub struct Pagination {
    pub page: i32,
    pub page_size: i32,
    pub total_items: i64,
    pub total_pages: i32,
}

/// A successful answer that carries one page of a result set.
#[derive(Clone, Debug)]
pub struct ApiResponsePagination<T> {
    pub status: String,
    pub message: String,
    pub data: T,
    pub pagination: Pagination,
}

/// The status word of every successful answer.
pub open spec fn success_word() -> Seq<char> {
    "success"@
}

/// `r` is a successful answer with this message and data.
pub open spec fn responds<T>(r: ApiResponse<T>, message: Seq<char>, data: T) -> bool {
    &&& r.status@ == success_word()
    &&& r.message@ == message
    &&& r.data == data
}

/// `r` is a successful page with this message, data and pagination.
pub open spec fn responds_page<T>(
    r: ApiResponsePagination<T>,
    message: Seq<char>,
    data: T,
    pagination: Pagination,
) -> bool {
    &&& r.status@ == success_word()
    &&& r.message@ == message
    &&& r.data == data
    &&& r.pagination == pagination
}

/// A successful answer with `message` and `data`.
pub fn success<T>(message: String, data: T) -> (r: ApiResponse<T>)
    ensures
        responds(r, message@, data),
{
    ApiResponse { status: String::from_str("success"), message, data }
}

/// A successful page with `message`, `data` and `pagination`.
pub fn success_page<T>(message: String, data: T, pagination: Pagination) -> (r:
    ApiResponsePagination<T>)
    ensures
        responds_page(r, message@, data, pagination),
{
    ApiResponsePagination { status: String::from_str("success"), message, data, pagination }
}

} // verus!
