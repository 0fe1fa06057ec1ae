//! The gateway's error taxonomy and the HTTP status each kind surfaces as.

use vstd::prelude::*;

verus! {

/// Everything that can fail a request.
#[derive(Debug, Clone)]
pub enum OmenError {
    /// The configuration could not be read.
    Config(String),
    /// An upstream provider failed after it was committed to.
    Provider(String),
    /// The request breaks the schema.
    InvalidRequest(String),
    /// No healthy provider lists the requested model.
    ModelNotFound(String),
    /// No candidate provider is healthy.
    ProviderUnavailable(String),
    /// Admission was denied.
    RateLimitExceeded,
    /// The credential is missing or invalid.
    Unauthorized,
    /// The tenant's daily budget or the request's budget is crossed.
    BudgetExceeded,
    /// The deadline passed before any useful token.
    Timeout,
    /// The cache's backing store failed.
    CacheError(String),
    /// The HTTP client failed.
    HttpClient(String),
    /// A value could not be serialised or parsed.
    Serialization(String),
    /// Anything else.
    Internal(String),
    /// The operating system refused an operation.
    Io(String),
    /// The configuration file is not valid TOML.
    Toml(String),
}

/// The HTTP status of an error kind.
pub open spec fn status_of(e: OmenError) -> int {
    match e {
        OmenError::InvalidRequest(_) => 400,
        OmenError::Unauthorized => 401,
        OmenError::BudgetExceeded => 403,
        OmenError::ModelNotFound(_) => 404,
        OmenError::RateLimitExceeded => 429,
        OmenError::Provider(_) => 502,
        OmenError::ProviderUnavailable(_) => 503,
        OmenError::Timeout => 504,
        _ => 500,
    }
}

/// The message that the error body carries: the detail of the kinds that the
/// caller may see, a fixed text for the others.
pub open spec fn message_of(e: OmenError) -> Seq<char> {
    match e {
        OmenError::InvalidRequest(m) => m@,
        OmenError::ModelNotFound(m) => m@,
        OmenError::ProviderUnavailable(m) => m@,
        OmenError::Provider(m) => m@,
        OmenError::RateLimitExceeded => "Rate limit exceeded"@,
        OmenError::Unauthorized => "Unauthorized"@,
        OmenError::BudgetExceeded => "Budget exceeded"@,
        OmenError::Timeout => "Deadline exceeded"@,
        _ => "Internal server error"@,
    }
}

impl OmenError {
    /// The HTTP status that this error surfaces as.
    pub fn status_code(&self) -> (code: u16)
        ensures
            code == status_of(*self),
    {
        match self {
            OmenError::InvalidRequest(_) => 400,
            OmenError::Unauthorized => 401,
            OmenError::BudgetExceeded => 403,
            OmenError::ModelNotFound(_) => 404,
            OmenError::RateLimitExceeded => 429,
            OmenError::Provider(_) => 502,
            OmenError::ProviderUnavailable(_) => 503,
            OmenError::Timeout => 504,
            _ => 500,
        }
    }

    /// The message of the error body.
    pub fn message(&self) -> (m: String)
        ensures
            m@ == message_of(*self),
    {
        match self {
            OmenError::InvalidRequest(m) => m.clone(),
            OmenError::ModelNotFound(m) => m.clone(),
            OmenError::ProviderUnavailable(m) => m.clone(),
            OmenError::Provider(m) => m.clone(),
            OmenError::RateLimitExceeded => String::from_str("Rate limit exceeded"),
            OmenError::Unauthorized => String::from_str("Unauthorized"),
            OmenError::BudgetExceeded => String::from_str("Budget exceeded"),
            OmenError::Timeout => String::from_str("Deadline exceeded"),
            _ => String::from_str("Internal server error"),
        }
    }

    /// The `type` field of the error body, the same for every kind.
    pub fn error_type(&self) -> (t: String)
        ensures
            t@ == "api_error"@,
    {
        String::from_str("api_error")
    }
}

} // verus!
