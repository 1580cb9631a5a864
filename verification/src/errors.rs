use vstd::prelude::*;

verus! {

/// What a repository reports when a query does not deliver a result.
#[derive(Debug)]
pub enum RepositoryError {
    /// The addressed row does not exist.
    NotFound,
    /// A failure described by the repository itself.
    Custom(String),
    /// A failure reported by the database driver, with the driver's message.
    Sqlx(String),
}

/// What a service reports to its caller.
#[derive(Debug)]
pub enum ServiceError {
    /// A repository failure handed through unchanged.
    Repo(RepositoryError),
    /// A failure described by the service.
    Custom(String),
    /// An internal failure, with a description.
    InternalServerError(String),
    /// The requested entity does not exist.
    NotFound(String),
    /// The password did not match.
    InvalidCredentials,
    /// The presented token has expired.
    TokenExpired,
}

/// What a call guarded by a circuit breaker reports.
#[derive(Debug)]
pub enum CircuitBreakerError<E> {
    /// The breaker is open: the call was not made.
    Open,
    /// The call was made and failed with this error.
    Inner(E),
}

/// The abstract value of a [`RepositoryError`].
pub enum RepositoryErrorView {
    NotFound,
    Custom(Seq<char>),
    Sqlx(Seq<char>),
}

/// The abstract value of a [`ServiceError`].
pub enum ServiceErrorView {
    Repo(RepositoryErrorView),
    Custom(Seq<char>),
    InternalServerError(Seq<char>),
    NotFound(Seq<char>),
    InvalidCredentials,
    TokenExpired,
}

impl View for RepositoryError {
    type V = RepositoryErrorView;

    open spec fn view(&self) -> RepositoryErrorView {
        match self {
            RepositoryError::NotFound => RepositoryErrorView::NotFound,
            RepositoryError::Custom(m) => RepositoryErrorView::Custom(m@),
            RepositoryError::Sqlx(m) => RepositoryErrorView::Sqlx(m@),
        }
    }
}

impl View for ServiceError {
    type V = ServiceErrorView;

    open spec fn view(&self) -> ServiceErrorView {
        match self {
            ServiceError::Repo(e) => ServiceErrorView::Repo(e@),
            ServiceError::Custom(m) => ServiceErrorView::Custom(m@),
            ServiceError::InternalServerError(m) => ServiceErrorView::InternalServerError(m@),
            ServiceError::NotFound(m) => ServiceErrorView::NotFound(m@),
            ServiceError::InvalidCredentials => ServiceErrorView::InvalidCredentials,
            ServiceError::TokenExpired => ServiceErrorView::TokenExpired,
        }
    }
}

/// The text that describes a repository error.
pub open spec fn describe(e: RepositoryErrorView) -> Seq<char> {
    match e {
        RepositoryErrorView::NotFound => "Record not found"@,
        RepositoryErrorView::Custom(m) => m,
        RepositoryErrorView::Sqlx(m) => "Database error: "@ + m,
    }
}

impl RepositoryError {
    /// The text that describes this error.
    pub fn describe(&self) -> (r: String)
        ensures
            r@ == describe(self@),
    {
        match self {
            RepositoryError::NotFound => String::from_str("Record not found"),
            RepositoryError::Custom(m) => m.clone(),
            RepositoryError::Sqlx(m) => {
                let mut s = String::from_str("Database error: ");
                s.append(m.as_str());
                s
            },
        }
    }
}

impl ServiceError {
    /// The service error that wraps a repository error.
    pub fn from_repository(e: RepositoryError) -> (r: ServiceError)
        ensures
            r == ServiceError::Repo(e),
    {
        ServiceError::Repo(e)
    }
}

} // verus!
