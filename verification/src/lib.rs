//! Query planning for ranked text retrieval.
//!
//! Given a find or aggregate request, the planner extracts the search terms of the
//! request's text predicate, decides whether the request goes to the ranked-retrieval
//! backend, and builds the execution plan and the backend call. Talking to the backend
//! and to the standard execution path is left to the caller.

pub mod algorithm;
pub mod context;
pub mod diagnostics;
pub mod dispatch;
pub mod document;
pub mod error;
pub mod plan;
pub mod results;
pub mod routing;
pub mod terms;
