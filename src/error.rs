//! The failures that the library reports, one variant per kind.
use crate::text::{decimal, decimal_text};
use vstd::prelude::*;

verus! {

/// Why an operation of the context store or of the catalog failed.
#[derive(Debug)]
pub enum LcmpError {
    /// The store already holds its maximum number of active contexts.
    CapacityExceeded { max_contexts: usize },
    /// The message breaks structural rules: the reasons, joined with `;`.
    ValidationFailed { reasons: String },
    /// No reference URI could be found for the descriptor identifier, which
    /// may be unspecified.
    ResolutionFailed { app_d_id: Option<String> },
    /// No active context has this identifier.
    NotFound { context_id: String },
    /// An update request carries no context identifier.
    ContextIdMissing,
    /// An update request differs from the stored context in a field other
    /// than `callbackReference`.
    Conflict,
    /// A newly drawn context identifier is already held by an active context.
    ContextIdInUse { context_id: String },
    /// The catalog failed to load: the load error.
    CatalogUnavailable { reason: String },
}

/// The text that describes an error to a client.
pub open spec fn error_text(e: LcmpError) -> Seq<char> {
    match e {
        LcmpError::CapacityExceeded { max_contexts } => "Maximum number of active contexts reached "@
            + decimal(max_contexts as nat),
        LcmpError::ValidationFailed { reasons } => reasons@,
        LcmpError::ResolutionFailed { app_d_id } => "It was not possible to find a matching reference URI for AppDId: "@
            + match app_d_id {
            Some(id) => id@,
            None => "unspecified"@,
        },
        LcmpError::NotFound { context_id } => "context ID not found: "@ + context_id@,
        LcmpError::ContextIdMissing => "context ID not specified in the request"@,
        LcmpError::Conflict => "AppContext in the request does not match that in the server"@,
        LcmpError::ContextIdInUse { context_id } => "context ID already in use: "@ + context_id@,
        LcmpError::CatalogUnavailable { reason } => reason@,
    }
}

impl LcmpError {
    /// Describes the error to a client.
    pub fn message(&self) -> (r: String)
        ensures
            r@ == error_text(*self),
    {
        match self {
            LcmpError::CapacityExceeded { max_contexts } => {
                let mut t = "Maximum number of active contexts reached ".to_string();
                let n = decimal_text(*max_contexts as u64);
                t.append(n.as_str());
                t
            },
            LcmpError::ValidationFailed { reasons } => reasons.clone(),
            LcmpError::ResolutionFailed { app_d_id } => {
                let mut t = "It was not possible to find a matching reference URI for AppDId: ".to_string();
                match app_d_id {
                    Some(id) => t.append(id.as_str()),
                    None => t.append("unspecified"),
                }
                t
            },
            LcmpError::NotFound { context_id } => {
                let mut t = "context ID not found: ".to_string();
                t.append(context_id.as_str());
                t
            },
            LcmpError::ContextIdMissing => "context ID not specified in the request".to_string(),
            LcmpError::Conflict => "AppContext in the request does not match that in the server".to_string(),
            LcmpError::ContextIdInUse { context_id } => {
                let mut t = "context ID already in use: ".to_string();
                t.append(context_id.as_str());
                t
            },
            LcmpError::CatalogUnavailable { reason } => reason.clone(),
        }
    }
}

} // verus!
