//! The decisions a service takes around one repository call.
//!
//! A read is answered from the cache when the cache holds the answer;
//! otherwise the repository is asked, and a result is turned into an answer
//! that is stored in the cache under the plan's key. A command asks the
//! repository and, on success, drops the cache entries that the change makes
//! stale. A failure of the repository becomes a service error as the plan's
//! error policy says.
use crate::errors::{describe, RepositoryError, RepositoryErrorView, ServiceError, ServiceErrorView};
use crate::pagination::{pages_for, total_pages};
use crate::response::{responds, responds_page, success, success_page, ApiResponse, ApiResponsePagination, Pagination};
use vstd::prelude::*;

verus! {

/// How a service reports a failed repository call.
#[derive(Debug)]
pub enum OnRepoError {
    /// The repository error, wrapped unchanged.
    Pass,
    /// A fixed message.
    Custom(String),
    /// A message made of the repository error's description.
    CustomDescribed,
    /// An internal error with the repository error's description.
    Internal,
    /// "Not found" with the given message when the row does not exist, an
    /// internal error with the description otherwise.
    NotFoundAs(String),
    /// A message made of the given prefix and the repository error's
    /// description.
    CustomWith(String),
}

/// The abstract value of an [`OnRepoError`].
pub enum OnRepoErrorView {
    Pass,
    Custom(Seq<char>),
    CustomDescribed,
    Internal,
    NotFoundAs(Seq<char>),
    CustomWith(Seq<char>),
}

impl View for OnRepoError {
    type V = OnRepoErrorView;

    open spec fn view(&self) -> OnRepoErrorView {
        match self {
            OnRepoError::Pass => OnRepoErrorView::Pass,
            OnRepoError::Custom(m) => OnRepoErrorView::Custom(m@),
            OnRepoError::CustomDescribed => OnRepoErrorView::CustomDescribed,
            OnRepoError::Internal => OnRepoErrorView::Internal,
            OnRepoError::NotFoundAs(m) => OnRepoErrorView::NotFoundAs(m@),
            OnRepoError::CustomWith(m) => OnRepoErrorView::CustomWith(m@),
        }
    }
}

/// The service error that policy `p` makes of repository error `e`.
pub open spec fn service_error_for(p: OnRepoErrorView, e: RepositoryErrorView) -> ServiceErrorView {
    match p {
        OnRepoErrorView::Pass => ServiceErrorView::Repo(e),
        OnRepoErrorView::Custom(m) => ServiceErrorView::Custom(m),
        OnRepoErrorView::CustomDescribed => ServiceErrorView::Custom(describe(e)),
        OnRepoErrorView::Internal => ServiceErrorView::InternalServerError(describe(e)),
        OnRepoErrorView::NotFoundAs(m) => if e is NotFound {
            ServiceErrorView::NotFound(m)
        } else {
            ServiceErrorView::InternalServerError(describe(e))
        },
        OnRepoErrorView::CustomWith(m) => ServiceErrorView::Custom(m + describe(e)),
    }
}

/// The service error that policy `p` makes of repository error `e`.
pub fn map_repo_error(p: &OnRepoError, e: RepositoryError) -> (r: ServiceError)
    ensures
        r@ == service_error_for(p@, e@),
{
    match p {
        OnRepoError::Pass => ServiceError::Repo(e),
        OnRepoError::Custom(m) => ServiceError::Custom(m.clone()),
        OnRepoError::CustomDescribed => ServiceError::Custom(e.describe()),
        OnRepoError::Internal => ServiceError::InternalServerError(e.describe()),
        OnRepoError::NotFoundAs(m) => match e {
            RepositoryError::NotFound => ServiceError::NotFound(m.clone()),
            _ => ServiceError::InternalServerError(e.describe()),
        },
        OnRepoError::CustomWith(m) => {
            let mut t = m.clone();
            t.append(e.describe().as_str());
            ServiceError::Custom(t)
        },
    }
}

/// Seconds in a minute.
pub const MINUTE_SECS: i64 = 60;

/// How long most answers stay cached, in seconds (ten minutes).
pub const TEN_MINUTES_SECS: i64 = 600;

/// How long some yearly statistics stay cached, in seconds (one hour).
pub const ONE_HOUR_SECS: i64 = 3600;

/// How a read is answered: the cache key, how long an answer stays cached,
/// the message of a successful answer and the error policy.
#[derive(Debug)]
pub struct ReadPlan {
    pub cache_key: String,
    pub ttl_secs: i64,
    pub message: String,
    pub on_error: OnRepoError,
}

/// What follows a repository read.
pub enum ReadOutcome<T> {
    /// The read failed: answer with this error.
    Failed(ServiceError),
    /// Store `response` under `key` for `ttl_secs` seconds, then answer with it.
    Store { key: String, ttl_secs: i64, response: ApiResponse<T> },
}

/// How a read begins, given what the cache holds under the plan's key.
pub enum ReadStart<T> {
    /// The cache holds the answer: give it back; no repository is asked.
    Answer(T),
    /// The cache holds nothing: ask the repository.
    AskRepository,
}

/// The start of a read when the cache holds `cached` under the plan's key.
pub open spec fn read_start<T>(cached: Option<T>) -> ReadStart<T> {
    match cached {
        Some(c) => ReadStart::Answer(c),
        None => ReadStart::AskRepository,
    }
}

/// How a read begins when the cache holds `cached` under the plan's key:
/// a cached answer is given back as it is, and only without one is the
/// repository asked.
pub fn read_begin<R>(cached: Option<R>) -> (r: ReadStart<R>)
    ensures
        r == read_start(cached),
{
    match cached {
        Some(c) => ReadStart::Answer(c),
        None => ReadStart::AskRepository,
    }
}

/// `plan` has this key, lifetime, message and error policy.
pub open spec fn read_plan_is(
    plan: ReadPlan,
    key: Seq<char>,
    ttl_secs: i64,
    message: Seq<char>,
    on_error: OnRepoErrorView,
) -> bool {
    &&& plan.cache_key@ == key
    &&& plan.ttl_secs == ttl_secs
    &&& plan.message@ == message
    &&& plan.on_error@ == on_error
}

/// `out` is what `plan` makes of the repository result `result`.
pub open spec fn read_settled<T>(
    plan: ReadPlan,
    result: Result<T, RepositoryError>,
    out: ReadOutcome<T>,
) -> bool {
    match result {
        Ok(d) => match out {
            ReadOutcome::Store { key, ttl_secs, response } => key@ == plan.cache_key@ && ttl_secs
                == plan.ttl_secs && responds(response, plan.message@, d),
            ReadOutcome::Failed(_) => false,
        },
        Err(e) => match out {
            ReadOutcome::Failed(se) => se@ == service_error_for(plan.on_error@, e@),
            _ => false,
        },
    }
}

impl ReadPlan {
    /// A read plan.
    pub fn new(cache_key: String, ttl_secs: i64, message: String, on_error: OnRepoError) -> (r:
        ReadPlan)
        ensures
            read_plan_is(r, cache_key@, ttl_secs, message@, on_error@),
    {
        ReadPlan { cache_key, ttl_secs, message, on_error }
    }

    /// Turns the repository's result into the next step: a failure into the
    /// service error the policy names, data into the answer to cache and give.
    pub fn settle<T>(self, result: Result<T, RepositoryError>) -> (r: ReadOutcome<T>)
        ensures
            read_settled(self, result, r),
    {
        match result {
            Ok(d) => {
                let response = success(self.message, d);
                ReadOutcome::Store { key: self.cache_key, ttl_secs: self.ttl_secs, response }
            },
            Err(e) => ReadOutcome::Failed(map_repo_error(&self.on_error, e)),
        }
    }
}

/// `out` is what `plan` makes of a lookup that may find nothing: nothing
/// found is "not found" with `missing`.
pub open spec fn found_settled<T>(
    plan: ReadPlan,
    result: Result<Option<T>, RepositoryError>,
    missing: Seq<char>,
    out: ReadOutcome<T>,
) -> bool {
    match result {
        Ok(Some(d)) => read_settled(plan, Ok::<T, RepositoryError>(d), out),
        Ok(None) => out matches ReadOutcome::Failed(se) && se@ == ServiceErrorView::NotFound(
            missing,
        ),
        Err(e) => read_settled(plan, Err::<T, RepositoryError>(e), out),
    }
}

impl ReadPlan {
    /// Like [`ReadPlan::settle`] for a lookup that may find nothing: nothing
    /// found is answered with "not found" and `missing`.
    pub fn settle_found<T>(self, result: Result<Option<T>, RepositoryError>, missing: String) -> (r:
        ReadOutcome<T>)
        ensures
            found_settled(self, result, missing@, r),
    {
        match result {
            Ok(Some(d)) => self.settle(Ok(d)),
            Ok(None) => ReadOutcome::Failed(ServiceError::NotFound(missing)),
            Err(e) => self.settle(Err(e)),
        }
    }
}

/// How a paged read is answered: like a [`ReadPlan`], plus the page served.
#[derive(Debug)]
pub struct PageReadPlan {
    pub cache_key: String,
    pub ttl_secs: i64,
    pub message: String,
    pub on_error: OnRepoError,
    pub page: i32,
    pub page_size: i32,
}

/// What follows a paged repository read.
pub enum PageOutcome<T> {
    /// The read failed: answer with this error.
    Failed(ServiceError),
    /// Store `response` under `key` for `ttl_secs` seconds, then answer with it.
    Store { key: String, ttl_secs: i64, response: ApiResponsePagination<T> },
}

/// `plan` has this key, lifetime, message, error policy and page.
pub open spec fn page_plan_is(
    plan: PageReadPlan,
    key: Seq<char>,
    ttl_secs: i64,
    message: Seq<char>,
    on_error: OnRepoErrorView,
    page: i32,
    page_size: i32,
) -> bool {
    &&& plan.cache_key@ == key
    &&& plan.ttl_secs == ttl_secs
    &&& plan.message@ == message
    &&& plan.on_error@ == on_error
    &&& plan.page == page
    &&& plan.page_size == page_size
}

/// The pagination of a page of `plan` when the whole set holds `total` items.
pub open spec fn pagination_for(plan: PageReadPlan, total: i64) -> Pagination {
    Pagination {
        page: plan.page,
        page_size: plan.page_size,
        total_items: total,
        total_pages: pages_for(total as int, plan.page_size as int) as i32,
    }
}

/// `out` is what `plan` makes of the repository result `result`: the rows of
/// the page and the size of the whole set.
pub open spec fn page_settled<T>(
    plan: PageReadPlan,
    result: Result<(T, i64), RepositoryError>,
    out: PageOutcome<T>,
) -> bool {
    match result {
        Ok((d, total)) => match out {
            PageOutcome::Store { key, ttl_secs, response } => key@ == plan.cache_key@ && ttl_secs
                == plan.ttl_secs && responds_page(
                response,
                plan.message@,
                d,
                pagination_for(plan, total),
            ),
            PageOutcome::Failed(_) => false,
        },
        Err(e) => match out {
            PageOutcome::Failed(se) => se@ == service_error_for(plan.on_error@, e@),
            _ => false,
        },
    }
}

impl PageReadPlan {
    /// Turns the repository's result into the next step: a failure into the
    /// service error the policy names; rows and total into the page to cache
    /// and give, with the number of pages rounded up.
    pub fn settle<T>(self, result: Result<(T, i64), RepositoryError>) -> (r: PageOutcome<T>)
        requires
            self.page_size > 0,
        ensures
            page_settled(self, result, r),
    {
        match result {
            Ok((d, total)) => {
                let pagination = Pagination {
                    page: self.page,
                    page_size: self.page_size,
                    total_items: total,
                    total_pages: total_pages(total, self.page_size),
                };
                let response = success_page(self.message, d, pagination);
                PageOutcome::Store { key: self.cache_key, ttl_secs: self.ttl_secs, response }
            },
            Err(e) => PageOutcome::Failed(map_repo_error(&self.on_error, e)),
        }
    }
}

/// How a command is answered: the message of a successful answer, the error
/// policy and the cache entries that a success makes stale.
#[derive(Debug)]
pub struct CommandPlan {
    pub message: String,
    pub on_error: OnRepoError,
    pub invalidate: Vec<String>,
}

/// What follows a repository command.
pub enum CommandOutcome<T> {
    /// The command failed: answer with this error.
    Failed(ServiceError),
    /// Drop the cache entries matching `keys`, then answer with `response`.
    Invalidate { keys: Vec<String>, response: ApiResponse<T> },
}

/// The views of a list of texts.
pub open spec fn texts(v: Seq<String>) -> Seq<Seq<char>> {
    v.map_values(|s: String| s@)
}

/// `plan` has this message, error policy and list of stale entries.
pub open spec fn command_plan_is(
    plan: CommandPlan,
    message: Seq<char>,
    on_error: OnRepoErrorView,
    invalidate: Seq<Seq<char>>,
) -> bool {
    &&& plan.message@ == message
    &&& plan.on_error@ == on_error
    &&& texts(plan.invalidate@) == invalidate
}

/// `out` is what `plan` makes of the repository result `result`.
pub open spec fn command_settled<T>(
    plan: CommandPlan,
    result: Result<T, RepositoryError>,
    out: CommandOutcome<T>,
) -> bool {
    match result {
        Ok(d) => match out {
            CommandOutcome::Invalidate { keys, response } => texts(keys@) == texts(
                plan.invalidate@,
            ) && responds(response, plan.message@, d),
            CommandOutcome::Failed(_) => false,
        },
        Err(e) => match out {
            CommandOutcome::Failed(se) => se@ == service_error_for(plan.on_error@, e@),
            _ => false,
        },
    }
}

impl CommandPlan {
    /// A command plan.
    pub fn new(message: String, on_error: OnRepoError, invalidate: Vec<String>) -> (r:
        CommandPlan)
        ensures
            command_plan_is(r, message@, on_error@, texts(invalidate@)),
    {
        CommandPlan { message, on_error, invalidate }
    }

    /// Turns the repository's result into the next step: a failure into the
    /// service error the policy names, a success into the entries to drop and
    /// the answer.
    pub fn settle<T>(self, result: Result<T, RepositoryError>) -> (r: CommandOutcome<T>)
        ensures
            command_settled(self, result, r),
    {
        match result {
            Ok(d) => {
                let response = success(self.message, d);
                CommandOutcome::Invalidate { keys: self.invalidate, response }
            },
            Err(e) => CommandOutcome::Failed(map_repo_error(&self.on_error, e)),
        }
    }
}

/// A key made of a prefix and a number.
pub open spec fn key_num(prefix: Seq<char>, n: int) -> Seq<char> {
    prefix + crate::text::decimal(n)
}

/// A key made of a prefix and a text.
pub open spec fn key_text(prefix: Seq<char>, t: Seq<char>) -> Seq<char> {
    prefix + t
}

/// The text `prefix` followed by the decimal numeral of `n`.
pub fn with_num(prefix: &str, n: i64) -> (r: String)
    ensures
        r@ == key_num(prefix@, n as int),
{
    let mut s = String::from_str(prefix);
    crate::text::push_decimal(&mut s, n);
    s
}

/// The text `prefix` followed by `t`.
pub fn with_text(prefix: &str, t: &str) -> (r: String)
    ensures
        r@ == key_text(prefix@, t@),
{
    let mut s = String::from_str(prefix);
    s.append(t);
    s
}

/// A key made of a prefix, a text and a suffix.
pub open spec fn key_around(prefix: Seq<char>, t: Seq<char>, suffix: Seq<char>) -> Seq<char> {
    prefix + t + suffix
}

/// The text `prefix`, then `t`, then `suffix`.
pub fn around(prefix: &str, t: &str, suffix: &str) -> (r: String)
    ensures
        r@ == key_around(prefix@, t@, suffix@),
{
    let mut s = String::from_str(prefix);
    s.append(t);
    s.append(suffix);
    s
}

/// The text `s`, owned.
pub fn text(s: &str) -> (r: String)
    ensures
        r@ == s@,
{
    String::from_str(s)
}

/// Refuses a request that failed validation, with the validator's message.
pub fn check_validation(problem: Option<String>) -> (r: Result<(), ServiceError>)
    ensures
        match problem {
            Some(m) => r matches Err(se) && se@ == ServiceErrorView::Custom(m@),
            None => r is Ok,
        },
{
    match problem {
        Some(m) => Err(ServiceError::Custom(m)),
        None => Ok(()),
    }
}

/// Refuses a request whose id is missing, with `message`.
pub fn require_id(id: Option<i32>, message: &str) -> (r: Result<i32, ServiceError>)
    ensures
        match id {
            Some(v) => r == Ok::<i32, ServiceError>(v),
            None => r matches Err(se) && se@ == ServiceErrorView::Custom(message@),
        },
{
    match id {
        Some(v) => Ok(v),
        None => Err(ServiceError::Custom(text(message))),
    }
}

/// Refuses with a fixed message when a step failed.
pub fn or_custom<T, E>(result: Result<T, E>, message: &str) -> (r: Result<T, ServiceError>)
    ensures
        match result {
            Ok(v) => r == Ok::<T, ServiceError>(v),
            Err(_) => r matches Err(se) && se@ == ServiceErrorView::Custom(message@),
        },
{
    match result {
        Ok(v) => Ok(v),
        Err(_) => Err(ServiceError::Custom(text(message))),
    }
}

/// A read's answer, once stored, is given back as it is: the answer a read
/// makes of the repository's data is stored under the plan's key for the
/// plan's lifetime, and a later read that finds it there answers with it
/// and asks no repository.
pub proof fn law_stored_answer_given_back<T>(plan: ReadPlan, data: T, out: ReadOutcome<T>)
    requires
        read_settled(plan, Ok::<T, RepositoryError>(data), out),
    ensures
        out matches ReadOutcome::Store { key, ttl_secs, response } && key@ == plan.cache_key@
            && ttl_secs == plan.ttl_secs && responds(response, plan.message@, data) && read_start(
            Some(response),
        ) == ReadStart::Answer(response),
{
}

/// The same for a paged read: the page stored under the plan's key is, when
/// found there later, the answer, and no repository is asked.
pub proof fn law_stored_page_given_back<T>(plan: PageReadPlan, data: T, total: i64, out: PageOutcome<T>)
    requires
        page_settled(plan, Ok::<(T, i64), RepositoryError>((data, total)), out),
    ensures
        out matches PageOutcome::Store { key, ttl_secs, response } && key@ == plan.cache_key@
            && ttl_secs == plan.ttl_secs && responds_page(
            response,
            plan.message@,
            data,
            pagination_for(plan, total),
        ) && read_start(Some(response)) == ReadStart::Answer(response),
{
}

} // verus!
