use vstd::prelude::*;

verus! {

/// The JSON body sent with every error reply: `{"error": "<message>"}`.
#[derive(Debug, Clone)]
pub struct ErrorResponse {
    pub error: String,
}

/// Failures that end a request.
#[derive(Debug, Clone)]
pub enum ApiError {
    /// Missing, malformed, stale or mismatched credentials.
    Unauthorized(String),
    /// The caller is authenticated but the entity does not exist.
    NotFound(String),
    /// A backing-store failure; the cause is kept for the logs only.
    Internal(String),
    /// A cache transport failure; the cause is kept for the logs only.
    Redis(String),
}

/// The mathematical value of an [`ApiError`].
pub enum ApiErrorView {
    Unauthorized(Seq<char>),
    NotFound(Seq<char>),
    Internal(Seq<char>),
    Redis(Seq<char>),
}

impl View for ApiError {
    type V = ApiErrorView;

    open spec fn view(&self) -> ApiErrorView {
        match self {
            ApiError::Unauthorized(m) => ApiErrorView::Unauthorized(m@),
            ApiError::NotFound(m) => ApiErrorView::NotFound(m@),
            ApiError::Internal(m) => ApiErrorView::Internal(m@),
            ApiError::Redis(m) => ApiErrorView::Redis(m@),
        }
    }
}

/// The view of a result whose error is an [`ApiError`].
pub open spec fn result_view<T>(r: Result<T, ApiError>) -> Result<T, ApiErrorView> {
    match r {
        Ok(v) => Ok(v),
        Err(e) => Err(e@),
    }
}

/// The generic text that replaces every internal failure in a reply.
pub open spec fn internal_message() -> Seq<char> {
    "Internal server error"@
}

impl ApiErrorView {
    /// The HTTP status that the error maps to.
    pub open spec fn status(self) -> u16 {
        match self {
            ApiErrorView::Unauthorized(_) => 401,
            ApiErrorView::NotFound(_) => 404,
            ApiErrorView::Internal(_) => 500,
            ApiErrorView::Redis(_) => 500,
        }
    }

    /// The text that reaches the client: client-caused errors carry their
    /// message, internal ones never expose their cause.
    pub open spec fn client_message(self) -> Seq<char> {
        match self {
            ApiErrorView::Unauthorized(m) => m,
            ApiErrorView::NotFound(m) => m,
            ApiErrorView::Internal(_) => internal_message(),
            ApiErrorView::Redis(_) => internal_message(),
        }
    }
}

impl ApiError {
    pub fn unauthorized(msg: &str) -> (r: ApiError)
        ensures
            r@ == ApiErrorView::Unauthorized(msg@),
    {
        ApiError::Unauthorized(msg.to_owned())
    }

    pub fn not_found(msg: &str) -> (r: ApiError)
        ensures
            r@ == ApiErrorView::NotFound(msg@),
    {
        ApiError::NotFound(msg.to_owned())
    }

    /// The HTTP status code of the reply for this error.
    pub fn status_code(&self) -> (r: u16)
        ensures
            r == self@.status(),
    {
        match self {
            ApiError::Unauthorized(_) => 401,
            ApiError::NotFound(_) => 404,
            ApiError::Internal(_) => 500,
            ApiError::Redis(_) => 500,
        }
    }

    /// The message shown to the client.
    pub fn message(&self) -> (r: String)
        ensures
            r@ == self@.client_message(),
    {
        match self {
            ApiError::Unauthorized(m) => m.clone(),
            ApiError::NotFound(m) => m.clone(),
            ApiError::Internal(_) => "Internal server error".to_owned(),
            ApiError::Redis(_) => "Internal server error".to_owned(),
        }
    }

    /// The status and JSON body of the reply for this error.
    pub fn error_response(&self) -> (r: (u16, ErrorResponse))
        ensures
            r.0 == self@.status(),
            r.1.error@ == self@.client_message(),
    {
        (self.status_code(), ErrorResponse { error: self.message() })
    }
}

} // verus!
