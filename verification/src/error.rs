//! Errors reported to agents.

use vstd::prelude::*;

verus! {

/// What went wrong with an agent request: bad input, an unknown handle, or a
/// failure inside the statistical engine.
#[derive(Debug)]
pub enum AgentApiError {
    InvalidInput(String),
    NotFound(String),
    Computation(String),
}

/// The mathematical model of an [`AgentApiError`]: its kind and its message.
pub enum ApiErrorView {
    InvalidInput(Seq<char>),
    NotFound(Seq<char>),
    Computation(Seq<char>),
}

impl View for AgentApiError {
    type V = ApiErrorView;

    open spec fn view(&self) -> ApiErrorView {
        match self {
            AgentApiError::InvalidInput(m) => ApiErrorView::InvalidInput(m@),
            AgentApiError::NotFound(m) => ApiErrorView::NotFound(m@),
            AgentApiError::Computation(m) => ApiErrorView::Computation(m@),
        }
    }
}

impl AgentApiError {
    /// Whether the caller is at fault (bad input or an unknown handle) rather than
    /// the statistical engine.
    pub fn is_caller_error(&self) -> (r: bool)
        ensures
            r == !(self@ is Computation),
    {
        match self {
            AgentApiError::InvalidInput(_) => true,
            AgentApiError::NotFound(_) => true,
            AgentApiError::Computation(_) => false,
        }
    }

    /// The human-readable text of the error (what its `Display` would print).
    pub fn message(&self) -> (m: String)
        ensures
            m@ == match self@ {
                ApiErrorView::InvalidInput(t) => t,
                ApiErrorView::NotFound(t) => t,
                ApiErrorView::Computation(t) => t,
            },
    {
        match self {
            AgentApiError::InvalidInput(m) => m.clone(),
            AgentApiError::NotFound(m) => m.clone(),
            AgentApiError::Computation(m) => m.clone(),
        }
    }
}

} // verus!

verus! {

/// An input error with the given message.
pub open spec fn invalid(m: Seq<char>) -> ApiErrorView {
    ApiErrorView::InvalidInput(m)
}

/// An unknown-handle error with the given message.
pub open spec fn not_found(m: Seq<char>) -> ApiErrorView {
    ApiErrorView::NotFound(m)
}

/// The executable result `r` is the abstract outcome `o`: the same success value,
/// or an error with the same kind and message.
pub open spec fn agrees<T>(r: Result<T, AgentApiError>, o: Result<T, ApiErrorView>) -> bool {
    match r {
        Ok(v) => o == Ok::<T, ApiErrorView>(v),
        Err(e) => o == Err::<T, ApiErrorView>(e@),
    }
}

} // verus!
