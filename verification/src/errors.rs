//! The error taxonomy of the storage layer and the uniform
//! remote-call error that every failure is wrapped into.

use vstd::prelude::*;

verus! {

/// A failure of the storage layer, each variant carrying a
/// human-readable message.
#[derive(Debug)]
pub enum StoreError {
    /// The store was unreachable or its location was invalid.
    ConnectionError(String),
    /// A statement was malformed or failed to execute.
    StatementError(String),
    /// A row could not be mapped onto the entity.
    DecodeError(String),
}

/// The uniform remote-call error surfaced to operation callers.
#[derive(Debug)]
pub enum ServerFnError {
    /// Any server-side failure, carrying a human-readable message.
    ServerError(String),
}

/// The message carried by a storage failure.
pub open spec fn store_error_message(e: StoreError) -> Seq<char> {
    match e {
        StoreError::ConnectionError(m) => m@,
        StoreError::StatementError(m) => m@,
        StoreError::DecodeError(m) => m@,
    }
}

/// The message carried by a remote-call error.
pub open spec fn server_error_message(e: ServerFnError) -> Seq<char> {
    match e {
        ServerFnError::ServerError(m) => m@,
    }
}

/// Wraps a storage failure into the uniform remote-call error,
/// keeping its message.  No local recovery happens anywhere: every
/// storage failure is forwarded this way.
pub fn wrap_store_error(e: StoreError) -> (r: ServerFnError)
    ensures
        server_error_message(r) == store_error_message(e),
{
    match e {
        StoreError::ConnectionError(m) => ServerFnError::ServerError(m),
        StoreError::StatementError(m) => ServerFnError::ServerError(m),
        StoreError::DecodeError(m) => ServerFnError::ServerError(m),
    }
}

impl ServerFnError {
    /// The human-readable message of the error, for display.
    pub fn message(&self) -> (r: &String)
        ensures
            r@ == server_error_message(*self),
    {
        match self {
            ServerFnError::ServerError(m) => m,
        }
    }
}

} // verus!
