//! The error taxonomy of the server bootstrap: the classified causes a bind
//! can fail with, and the error type `serve` surfaces to its caller.
//!
//! Bind failures are the only failures that escape this core; per-connection
//! failures are logged and contained (see the server module).

use vstd::prelude::*;

verus! {

/// Classification of the underlying network error a bind failed with.
#[derive(Clone, Copy, Debug, PartialEq, Eq, Structural)]
pub enum BindCause {
    /// The port is already bound by another listener.
    AddressInUse,
    /// The process may not bind the requested port.
    PermissionDenied,
    /// The bind target itself is not a usable address.
    InvalidAddress,
    /// Any other error the operating system reported.
    Other,
}

/// Errors that may occur when starting the server. Produced only during the
/// synchronous bind phase, never during steady-state request handling.
#[derive(Clone, Copy, Debug, PartialEq, Eq, Structural)]
pub enum GraphQLServeError {
    /// The listener could not be bound; carries the classified cause.
    BindError(BindCause),
}

impl BindCause {
    /// A short text for the cause, usable as a log field.
    pub fn describe(&self) -> (s: String)
        ensures
            s@ == spec_cause_text(*self),
    {
        match self {
            BindCause::AddressInUse => "address in use".to_owned(),
            BindCause::PermissionDenied => "permission denied".to_owned(),
            BindCause::InvalidAddress => "invalid address".to_owned(),
            BindCause::Other => "network error".to_owned(),
        }
    }
}

/// The text `BindCause::describe` renders each cause as.
pub open spec fn spec_cause_text(c: BindCause) -> Seq<char> {
    match c {
        BindCause::AddressInUse => "address in use"@,
        BindCause::PermissionDenied => "permission denied"@,
        BindCause::InvalidAddress => "invalid address"@,
        BindCause::Other => "network error"@,
    }
}

impl GraphQLServeError {
    /// A short text for the error, in place of a `Display` rendering.
    pub fn describe(&self) -> (s: String)
        ensures
            s@ == spec_error_text(*self),
    {
        let mut s: String = "Bind error: ".to_owned();
        match self {
            GraphQLServeError::BindError(cause) => {
                let cause_text = cause.describe();
                s.push_str(cause_text.as_str());
            },
        }
        s
    }
}

/// The text `GraphQLServeError::describe` renders each error as.
pub open spec fn spec_error_text(e: GraphQLServeError) -> Seq<char> {
    match e {
        GraphQLServeError::BindError(c) => "Bind error: "@ + spec_cause_text(c),
    }
}

} // verus!
